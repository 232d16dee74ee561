//! Host-visible side effects computed by the library: the wounded-texture
//! swap with its screams, and the sounds around the lever.
//!
//! The host engine performs these effects (sprite swaps, audio playback);
//! the library only decides them.  The one source of randomness, the choice
//! of scream sample, comes from the `rand` crate through a trusted wrapper,
//! and everything that follows the random draw is verified for every value
//! it may produce.

use vstd::prelude::*;
use vstd::string::StringExecFns;
use crate::text::spec_dec;

verus! {

/// How many distinct scream samples the sound bank holds.
pub const SCREAM_SOUND_COUNT: u64 = 24;

/// Relies on rand::random: a uniformly random 64-bit value from the
/// thread-local generator.  Nothing is promised of the value.
#[verifier::external_body]
pub(crate) fn random_u64() -> u64 {
    rand::random::<u64>()
}

/// The name of the numbered scream sample, such as the seventh: the digits
/// after the fixed prefix.
pub open spec fn spec_scream_name(k: int) -> Seq<char> {
    "scream-"@ + spec_dec(k)
}

/// Whether a sound name is one the scream picker may produce: the override
/// when one is configured, else one of the numbered scream samples.
pub open spec fn spec_valid_scream(name: Seq<char>, override_sound: Option<Seq<char>>) -> bool {
    match override_sound {
        Option::Some(o) => name == o,
        Option::None => exists|k: int|
            1 <= k <= SCREAM_SOUND_COUNT && name == spec_scream_name(k),
    }
}

/// Builds the numbered scream name for a draw of the random generator: the
/// draw picks exactly the sample numbered one past its remainder modulo the
/// size of the sound bank, so every sample can come up.
pub fn scream_name_for_draw(draw: u64) -> (name: String)
    ensures
        name@ == spec_scream_name(draw as int % (SCREAM_SOUND_COUNT as int) + 1),
        exists|k: int| 1 <= k <= SCREAM_SOUND_COUNT && name@ == spec_scream_name(k),
{
    let k = (draw % SCREAM_SOUND_COUNT) + 1;
    let mut name = String::from_str("scream-");
    let digits = crate::text::u64_to_dec_string(k);
    name.append(digits.as_str());
    proof {
        assert(name@ =~= spec_scream_name(k as int));
    }
    name
}

/// Picks the scream sound for one hostage: the configured override if there
/// is one, else a random numbered scream sample.
pub fn pick_scream_sound(override_sound: &Option<String>) -> (name: String)
    ensures
        spec_valid_scream(
            name@,
            match override_sound {
                Option::Some(o) => Option::Some(o@),
                Option::None => Option::<Seq<char>>::None,
            },
        ),
{
    match override_sound {
        Option::Some(sound) => {
            let mut name = String::new();
            name.append(sound.as_str());
            proof {
                assert(name@ =~= sound@);
            }
            name
        },
        Option::None => scream_name_for_draw(random_u64()),
    }
}

/// The effects of a trolley reaching a hostage group: the host swaps the
/// group to the wounded texture, plays one scream per hostage, and either
/// pauses the music for a while or plays the squash sound.
pub struct WoundedEffects {
    /// The texture to show in place of the hostages.
    pub wounded_texture: String,
    /// One scream sound name per hostage.
    pub scream_sounds: Vec<String>,
    /// How long to pause the music and the approach sound, if at all.
    pub pause_music_ms: Option<u64>,
    /// Whether to play the squash sound; exactly when the music plays on.
    pub play_squash: bool,
}

/// Decides the effects of the trolley reaching a hostage group.  Nothing
/// happens unless the playing animation names a wounded texture; with one,
/// the hostages swap to it, each of the `num_hostages` hostages screams
/// (the configured override sound, or a random numbered scream), and the
/// music either pauses for the configured time or the squash sound plays.
pub fn show_wounded(
    wounded_texture: &Option<String>,
    num_hostages: usize,
    scream_override: &Option<String>,
    pause_music_ms: Option<u64>,
) -> (r: Option<WoundedEffects>)
    ensures
        r is Some <==> wounded_texture is Some,
        r matches Some(e) ==> {
            &&& e.wounded_texture@ == wounded_texture->0@
            &&& e.scream_sounds@.len() == num_hostages
            &&& forall|i: int| 0 <= i < num_hostages ==> spec_valid_scream(
                (#[trigger] e.scream_sounds@[i])@,
                match scream_override {
                    Option::Some(o) => Option::Some(o@),
                    Option::None => Option::<Seq<char>>::None,
                },
            )
            &&& e.pause_music_ms == pause_music_ms
            &&& e.play_squash == (pause_music_ms is None)
        },
{
    match wounded_texture {
        Option::None => None,
        Option::Some(texture) => {
            let mut texture_name = String::new();
            texture_name.append(texture.as_str());
            proof {
                assert(texture_name@ =~= texture@);
            }
            let mut screams: Vec<String> = Vec::new();
            let mut i: usize = 0;
            while i < num_hostages
                invariant
                    i <= num_hostages,
                    screams@.len() == i,
                    forall|j: int| 0 <= j < i ==> spec_valid_scream(
                        (#[trigger] screams@[j])@,
                        match scream_override {
                            Option::Some(o) => Option::Some(o@),
                            Option::None => Option::<Seq<char>>::None,
                        },
                    ),
                decreases num_hostages - i,
            {
                screams.push(pick_scream_sound(scream_override));
                i = i + 1;
            }
            Some(WoundedEffects {
                wounded_texture: texture_name,
                scream_sounds: screams,
                pause_music_ms,
                play_squash: pause_music_ms.is_none(),
            })
        },
    }
}

} // verus!
