//! How AniSkip markers reach the player: the script, chapter file and script
//! options passed on its command line.

use vstd::prelude::*;
use crate::text::push_str;

verus! {

/// The files and options that make a player skip openings and endings.
#[derive(Debug, PartialEq, Eq)]
pub struct SkipLaunch {
    pub script_path: String,
    pub chapters_path: String,
    pub script_opts: String,
}

impl Clone for SkipLaunch {
    fn clone(&self) -> (r: Self)
        ensures
            r == *self,
    {
        SkipLaunch {
            script_path: self.script_path.clone(),
            chapters_path: self.chapters_path.clone(),
            script_opts: self.script_opts.clone(),
        }
    }
}

/// `prefix` followed by `value`.
fn prefixed(prefix: &str, value: &str) -> (r: String)
    ensures
        r@ == prefix@ + value@,
{
    let mut s = String::from_str(prefix);
    push_str(&mut s, value);
    s
}

impl SkipLaunch {
    /// The mpv arguments: the skip script, the chapters file, the script options.
    pub open spec fn mpv_args_spec(&self) -> Seq<Seq<char>> {
        seq![
            "--script="@ + self.script_path@,
            "--chapters-file="@ + self.chapters_path@,
            "--script-opts="@ + self.script_opts@,
        ]
    }

    /// The IINA arguments: the mpv arguments passed through IINA.
    pub open spec fn iina_args_spec(&self) -> Seq<Seq<char>> {
        seq![
            "--mpv-script="@ + self.script_path@,
            "--mpv-chapters-file="@ + self.chapters_path@,
            "--mpv-script-opts="@ + self.script_opts@,
        ]
    }

    /// The arguments that give mpv the skip markers.
    pub fn mpv_args(&self) -> (r: Vec<String>)
        ensures
            crate::text::views(r@) == self.mpv_args_spec(),
    {
        let mut v: Vec<String> = Vec::new();
        v.push(prefixed("--script=", self.script_path.as_str()));
        v.push(prefixed("--chapters-file=", self.chapters_path.as_str()));
        v.push(prefixed("--script-opts=", self.script_opts.as_str()));
        assert(crate::text::views(v@) =~= self.mpv_args_spec());
        v
    }

    /// The arguments that give IINA the skip markers.
    pub fn iina_args(&self) -> (r: Vec<String>)
        ensures
            crate::text::views(r@) == self.iina_args_spec(),
    {
        let mut v: Vec<String> = Vec::new();
        v.push(prefixed("--mpv-script=", self.script_path.as_str()));
        v.push(prefixed("--mpv-chapters-file=", self.chapters_path.as_str()));
        v.push(prefixed("--mpv-script-opts=", self.script_opts.as_str()));
        assert(crate::text::views(v@) =~= self.iina_args_spec());
        v
    }
}

/// Options of the skip script.
#[derive(Debug, PartialEq, Eq)]
pub struct MpvSkipOptions {
    pub toggle: bool,
    pub toggle_key: String,
    pub offset: u8,
}

/// The largest offset, in seconds, that skip markers may be moved by.
pub const MAX_SKIP_OFFSET: u8 = 5;

impl MpvSkipOptions {
    /// The default options, the toggle key from `ANI_SKIP_TOGGLE_KEY` when it is set.
    pub fn with_toggle_key(toggle_key: Option<String>) -> (r: Self)
        ensures
            !r.toggle,
            r.offset == 0,
            r.toggle_key@ == (match toggle_key {
                Some(k) => k@,
                None => "T"@,
            }),
    {
        MpvSkipOptions {
            toggle: false,
            toggle_key: match toggle_key {
                Some(k) => k,
                None => String::from_str("T"),
            },
            offset: 0,
        }
    }

    /// Whether the offset is one the skip script accepts.
    pub fn offset_allowed(&self) -> (r: bool)
        ensures
            r == (self.offset <= MAX_SKIP_OFFSET),
    {
        self.offset <= MAX_SKIP_OFFSET
    }
}

/// The message for an offset the skip script does not accept.
pub fn offset_error_message() -> (r: &'static str)
    ensures
        r@ == "AniSkip offset cannot be more than 5 seconds"@,
{
    "AniSkip offset cannot be more than 5 seconds"
}

} // verus!
