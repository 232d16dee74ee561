//! The asset-addressing convention: the game requests every texture and
//! sound by a short name, and the host resolves it under a fixed directory
//! with a fixed extension.

use vstd::prelude::*;
use vstd::string::StringExecFns;

verus! {

/// The full path of an image asset of the given short name.
pub open spec fn spec_image_asset_path(name: Seq<char>) -> Seq<char> {
    "assets/images/"@ + name + ".png"@
}

/// The full path of a sound asset of the given short name.
pub open spec fn spec_audio_asset_path(name: Seq<char>) -> Seq<char> {
    "assets/sounds/"@ + name + ".mp3"@
}

/// The full path of a music asset of the given short name.
pub open spec fn spec_music_asset_path(name: Seq<char>) -> Seq<char> {
    "assets/music/"@ + name + ".mp3"@
}

/// Resolves an image's short name to its full path: the image directory,
/// the name, and the image extension.
pub fn image_asset_path(name: &str) -> (r: String)
    ensures
        r@ == spec_image_asset_path(name@),
{
    let mut path = String::from_str("assets/images/");
    path.append(name);
    path.append(".png");
    proof {
        assert(path@ =~= spec_image_asset_path(name@));
    }
    path
}

/// Resolves a sound's short name to its full path: the sound directory,
/// the name, and the audio extension.
pub fn audio_asset_path(name: &str) -> (r: String)
    ensures
        r@ == spec_audio_asset_path(name@),
{
    let mut path = String::from_str("assets/sounds/");
    path.append(name);
    path.append(".mp3");
    proof {
        assert(path@ =~= spec_audio_asset_path(name@));
    }
    path
}

/// Resolves a music track's short name to its full path: the music
/// directory, the name, and the audio extension.
pub fn music_asset_path(name: &str) -> (r: String)
    ensures
        r@ == spec_music_asset_path(name@),
{
    let mut path = String::from_str("assets/music/");
    path.append(name);
    path.append(".mp3");
    proof {
        assert(path@ =~= spec_music_asset_path(name@));
    }
    path
}

} // verus!
