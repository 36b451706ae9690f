//! The choices behind the notification sounds: the volume a clip plays at,
//! the cached file a scaled clip is kept in, the gain filter that scales it,
//! and the audio players tried in turn.

use vstd::prelude::*;
use vstd::string::*;
use crate::text::{decimal, digit_char, digit_to_char, push_char, push_decimal};

verus! {

/// The volume a clip is played at: the configured percentage, capped at 100.
pub fn clip_volume(volume_pct: u8) -> (r: u8)
    ensures
        r == (if volume_pct < 100 { volume_pct } else { 100u8 }),
{
    if volume_pct < 100 {
        volume_pct
    } else {
        100
    }
}

/// The name of the cached copy of clip `stem` scaled to `pct` percent.
pub open spec fn scaled_clip_text(stem: Seq<char>, pct: u8) -> Seq<char> {
    stem + ".v"@ + decimal(pct as nat) + ".oga"@
}

/// The file name of the cached copy of clip `stem` scaled to `pct` percent,
/// so that each volume level is encoded at most once.
pub fn scaled_clip_name(stem: &str, pct: u8) -> (r: String)
    ensures
        r@ == scaled_clip_text(stem@, pct),
{
    let mut s = String::new();
    s.append(stem);
    s.append(".v");
    push_decimal(&mut s, pct as u64);
    s.append(".oga");
    s
}

/// The gain filter that scales a clip to `pct` percent: the linear factor
/// `pct / 100` with three decimals.
pub open spec fn volume_filter_text(pct: u8) -> Seq<char> {
    if pct >= 100 {
        "volume=1.000"@
    } else {
        "volume=0."@ + seq![digit_char((pct / 10) as nat), digit_char((pct % 10) as nat), '0']
    }
}

/// The audio filter argument that scales a clip to `pct` percent.
pub fn volume_filter(pct: u8) -> (r: String)
    requires
        pct <= 100,
    ensures
        r@ == volume_filter_text(pct),
{
    let mut s = String::new();
    if pct >= 100 {
        s.append("volume=1.000");
    } else {
        s.append("volume=0.");
        push_char(&mut s, digit_to_char((pct / 10) as u64));
        push_char(&mut s, digit_to_char((pct % 10) as u64));
        push_char(&mut s, '0');
        assert(s@ =~= volume_filter_text(pct));
    }
    s
}

/// The clip to play at `pct` percent: the original clip at full volume, the
/// scaled copy otherwise, and the original again when scaling failed
/// (`scaled` is `None`): quieter is nice to have, but silence would hide that
/// a kill happened.
pub fn chosen_clip(base: &str, pct: u8, scaled: Option<String>) -> (r: String)
    ensures
        r@ == (if pct >= 100 {
            base@
        } else {
            match scaled {
                Some(p) => p@,
                None => base@,
            }
        }),
{
    if pct >= 100 {
        String::from_str(base)
    } else {
        match scaled {
            Some(p) => p,
            None => String::from_str(base),
        }
    }
}

/// An audio player to try: the program and the arguments that come before
/// the clip's path.
#[derive(Debug, Clone)]
pub struct Player {
    pub program: &'static str,
    pub args: Vec<&'static str>,
}

fn player(program: &'static str, args: Vec<&'static str>) -> (p: Player)
    ensures
        p.program == program,
        p.args == args,
{
    Player { program, args }
}

/// The Ogg-capable players, in the order they are tried: roughly how
/// commonly each is already running on a modern Linux desktop.
pub fn audio_players() -> (r: Vec<Player>)
    ensures
        r@.len() == 6,
        r@[0].program@ == "pw-play"@ && r@[0].args@.len() == 0,
        r@[1].program@ == "paplay"@ && r@[1].args@.len() == 0,
        r@[2].program@ == "canberra-gtk-play"@ && r@[2].args@.len() == 1 && r@[2].args@[0]@ == "-f"@,
        r@[3].program@ == "ogg123"@ && r@[3].args@.len() == 1 && r@[3].args@[0]@ == "-q"@,
        r@[4].program@ == "ffplay"@ && r@[4].args@.len() == 4 && r@[4].args@[0]@ == "-nodisp"@
            && r@[4].args@[1]@ == "-autoexit"@ && r@[4].args@[2]@ == "-loglevel"@ && r@[4].args@[3]@
            == "quiet"@,
        r@[5].program@ == "mpv"@ && r@[5].args@.len() == 2 && r@[5].args@[0]@ == "--no-video"@
            && r@[5].args@[1]@ == "--really-quiet"@,
{
    let mut r: Vec<Player> = Vec::new();
    r.push(player("pw-play", Vec::new()));
    r.push(player("paplay", Vec::new()));
    let mut a2: Vec<&'static str> = Vec::new();
    a2.push("-f");
    r.push(player("canberra-gtk-play", a2));
    let mut a3: Vec<&'static str> = Vec::new();
    a3.push("-q");
    r.push(player("ogg123", a3));
    let mut a4: Vec<&'static str> = Vec::new();
    a4.push("-nodisp");
    a4.push("-autoexit");
    a4.push("-loglevel");
    a4.push("quiet");
    r.push(player("ffplay", a4));
    let mut a5: Vec<&'static str> = Vec::new();
    a5.push("--no-video");
    a5.push("--really-quiet");
    r.push(player("mpv", a5));
    r
}

} // verus!
