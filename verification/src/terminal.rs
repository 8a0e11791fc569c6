//! Terminal graphics capability decisions.
//!
//! Three-tier detection from environment variables: known-bad terminals
//! first, then known-good ones, else unknown. Which image tool to use is
//! decided from what is installed; looking at the environment and at
//! `PATH` is left to the caller, which hands the values in.

use vstd::prelude::*;

use crate::json::or_text;
use crate::text::{
    chars_of, contains_chars, contains_run, str_eq, to_lowercase, unicode_lowercase,
};

verus! {

/// A display tool that can render inline images.
#[derive(Debug, Clone, Copy, PartialEq, Eq)]
#[non_exhaustive]
pub enum DisplayTool {
    /// Kitty graphics protocol via `kitten icat`.
    KittenIcat,
    /// iTerm2 inline images protocol via `wezterm imgcat`.
    WeztermImgcat,
}

/// Terminal inline image support detection result.
#[derive(Debug, Clone, Copy, PartialEq, Eq)]
#[non_exhaustive]
pub enum ImageSupport {
    /// Terminal is known to support inline images. Use the given tool.
    Supported(DisplayTool),
    /// Terminal is known NOT to support inline images.
    Unsupported,
    /// Terminal support is unknown.
    Unknown,
}

/// The value of `key` among environment pairs; a later pair overrides an
/// earlier one with the same key.
pub open spec fn env_value(env: Seq<(&str, &str)>, key: Seq<char>) -> Option<Seq<char>>
    decreases env.len(),
{
    if env.len() == 0 {
        None
    } else if env.last().0@ == key {
        Some(env.last().1@)
    } else {
        env_value(env.drop_last(), key)
    }
}

/// The verdict for lower-cased `TERM` and `TERM_PROGRAM` values and the
/// presence of terminal-specific variables.
pub open spec fn classify_spec(
    term: Seq<char>,
    program: Seq<char>,
    kitty_window_id: bool,
    wezterm_executable: bool,
    wezterm_pane: bool,
    ghostty_resources: bool,
) -> ImageSupport {
    if term == "dumb"@ || term == "linux"@ || program == "apple_terminal"@ {
        ImageSupport::Unsupported
    } else if kitty_window_id || wezterm_executable || wezterm_pane || ghostty_resources {
        ImageSupport::Supported(DisplayTool::KittenIcat)
    } else if program == "kitty"@ || program == "ghostty"@ || program == "wezterm"@ || program
        == "konsole"@ || program == "contour"@ || program == "rio"@ {
        ImageSupport::Supported(DisplayTool::KittenIcat)
    } else if contains_run(term, "kitty"@) {
        ImageSupport::Supported(DisplayTool::KittenIcat)
    } else {
        ImageSupport::Unknown
    }
}

/// The verdict for an environment.
pub open spec fn detect_spec(env: Seq<(&str, &str)>) -> ImageSupport {
    classify_spec(
        unicode_lowercase(or_text(env_value(env, "TERM"@), Seq::empty())),
        unicode_lowercase(or_text(env_value(env, "TERM_PROGRAM"@), Seq::empty())),
        env_value(env, "KITTY_WINDOW_ID"@) is Some,
        env_value(env, "WEZTERM_EXECUTABLE"@) is Some,
        env_value(env, "WEZTERM_PANE"@) is Some,
        env_value(env, "GHOSTTY_RESOURCES_DIR"@) is Some,
    )
}

/// Classify a terminal from its lower-cased `TERM` and `TERM_PROGRAM`
/// and whether `KITTY_WINDOW_ID`, `WEZTERM_EXECUTABLE`, `WEZTERM_PANE`
/// and `GHOSTTY_RESOURCES_DIR` are set (they survive inside tmux).
pub fn classify_terminal(
    term: &str,
    program: &str,
    kitty_window_id: bool,
    wezterm_executable: bool,
    wezterm_pane: bool,
    ghostty_resources: bool,
) -> (r: ImageSupport)
    ensures
        r == classify_spec(
            term@,
            program@,
            kitty_window_id,
            wezterm_executable,
            wezterm_pane,
            ghostty_resources,
        ),
{
    if str_eq(term, "dumb") || str_eq(term, "linux") || str_eq(program, "apple_terminal") {
        return ImageSupport::Unsupported;
    }
    if kitty_window_id || wezterm_executable || wezterm_pane || ghostty_resources {
        return ImageSupport::Supported(DisplayTool::KittenIcat);
    }
    if str_eq(program, "kitty") || str_eq(program, "ghostty") || str_eq(program, "wezterm")
        || str_eq(program, "konsole") || str_eq(program, "contour") || str_eq(program, "rio") {
        return ImageSupport::Supported(DisplayTool::KittenIcat);
    }
    if contains_chars(&chars_of(term), &chars_of("kitty")) {
        return ImageSupport::Supported(DisplayTool::KittenIcat);
    }
    ImageSupport::Unknown
}

/// The value of `key` in `env` (the last pair with that key).
pub fn env_lookup<'a>(env: &[(&'a str, &'a str)], key: &str) -> (r: Option<&'a str>)
    ensures
        match r {
            Some(v) => env_value(env@, key@) == Some(v@),
            None => env_value(env@, key@) is None,
        },
{
    let mut i: usize = env.len();
    assert(env@.take(env@.len() as int) =~= env@);
    while i > 0
        invariant
            i <= env@.len(),
            env_value(env@, key@) == env_value(env@.take(i as int), key@),
        decreases i,
    {
        let ghost t = env@.take(i as int);
        assert(t.drop_last() =~= env@.take(i - 1));
        assert(t.last() == env@[i - 1]);
        let (k, v) = env[i - 1];
        if str_eq(k, key) {
            return Some(v);
        }
        i = i - 1;
    }
    None
}

/// Detect terminal image support from environment variable pairs, as
/// the process environment holds them.
pub fn detect_from_env(env: &[(&str, &str)]) -> (r: ImageSupport)
    ensures
        r == detect_spec(env@),
{
    let term_raw = match env_lookup(env, "TERM") {
        Some(v) => v,
        None => "",
    };
    let program_raw = match env_lookup(env, "TERM_PROGRAM") {
        Some(v) => v,
        None => "",
    };
    proof {
        reveal_strlit("");
        assert(""@ =~= Seq::<char>::empty());
    }
    assert(term_raw@ == or_text(env_value(env@, "TERM"@), Seq::empty()));
    assert(program_raw@ == or_text(env_value(env@, "TERM_PROGRAM"@), Seq::empty()));
    let term = to_lowercase(term_raw);
    let program = to_lowercase(program_raw);
    let kitty = env_lookup(env, "KITTY_WINDOW_ID").is_some();
    let wez_exe = env_lookup(env, "WEZTERM_EXECUTABLE").is_some();
    let wez_pane = env_lookup(env, "WEZTERM_PANE").is_some();
    let ghostty = env_lookup(env, "GHOSTTY_RESOURCES_DIR").is_some();
    classify_terminal(term.as_str(), program.as_str(), kitty, wez_exe, wez_pane, ghostty)
}

/// The best installed tool: `kitten` before `wezterm`.
pub open spec fn best_tool_spec(kitten_on_path: bool, wezterm_on_path: bool) -> Option<DisplayTool> {
    if kitten_on_path {
        Some(DisplayTool::KittenIcat)
    } else if wezterm_on_path {
        Some(DisplayTool::WeztermImgcat)
    } else {
        None
    }
}

/// The tool to use for a detected one, given what is installed: a Kitty
/// protocol terminal without `kitten` falls back to `wezterm imgcat`.
pub open spec fn verify_tool_spec(tool: DisplayTool, kitten_on_path: bool, wezterm_on_path: bool) -> Option<
    DisplayTool,
> {
    match tool {
        DisplayTool::KittenIcat => best_tool_spec(kitten_on_path, wezterm_on_path),
        DisplayTool::WeztermImgcat => if wezterm_on_path {
            Some(DisplayTool::WeztermImgcat)
        } else {
            None
        },
    }
}

/// Select the best available display tool from which binaries are on
/// `PATH`.
pub fn best_available_tool(kitten_on_path: bool, wezterm_on_path: bool) -> (r: Option<DisplayTool>)
    ensures
        r == best_tool_spec(kitten_on_path, wezterm_on_path),
{
    if kitten_on_path {
        return Some(DisplayTool::KittenIcat);
    }
    if wezterm_on_path {
        return Some(DisplayTool::WeztermImgcat);
    }
    None
}

/// Resolve a detected tool against what is installed.
pub fn verify_tool(tool: DisplayTool, kitten_on_path: bool, wezterm_on_path: bool) -> (r: Option<
    DisplayTool,
>)
    ensures
        r == verify_tool_spec(tool, kitten_on_path, wezterm_on_path),
{
    match tool {
        DisplayTool::KittenIcat => best_available_tool(kitten_on_path, wezterm_on_path),
        DisplayTool::WeztermImgcat => {
            if wezterm_on_path {
                Some(DisplayTool::WeztermImgcat)
            } else {
                None
            }
        },
    }
}

/// The decision for a display override (`"never"`, `"always"`, anything
/// else meaning `"auto"`), the detected support and the installed tools.
pub open spec fn display_intent_spec(
    display_override: Seq<char>,
    support: ImageSupport,
    kitten_on_path: bool,
    wezterm_on_path: bool,
) -> (bool, Option<DisplayTool>) {
    if display_override == "never"@ {
        (false, None)
    } else if display_override == "always"@ {
        let t = best_tool_spec(kitten_on_path, wezterm_on_path);
        (t is Some, t)
    } else {
        match support {
            ImageSupport::Supported(tool) => {
                let t = verify_tool_spec(tool, kitten_on_path, wezterm_on_path);
                (t is Some, t)
            },
            ImageSupport::Unsupported => (false, None),
            ImageSupport::Unknown => {
                let t = best_tool_spec(kitten_on_path, wezterm_on_path);
                (t is Some, t)
            },
        }
    }
}

/// Resolve whether to attempt image display and which tool to use.
pub fn resolve_display_intent(
    display_override: &str,
    support: ImageSupport,
    kitten_on_path: bool,
    wezterm_on_path: bool,
) -> (r: (bool, Option<DisplayTool>))
    ensures
        r == display_intent_spec(display_override@, support, kitten_on_path, wezterm_on_path),
{
    if str_eq(display_override, "never") {
        return (false, None);
    }
    if str_eq(display_override, "always") {
        let t = best_available_tool(kitten_on_path, wezterm_on_path);
        return (t.is_some(), t);
    }
    match support {
        ImageSupport::Supported(tool) => {
            let t = verify_tool(tool, kitten_on_path, wezterm_on_path);
            (t.is_some(), t)
        },
        ImageSupport::Unsupported => (false, None),
        ImageSupport::Unknown => {
            let t = best_available_tool(kitten_on_path, wezterm_on_path);
            (t.is_some(), t)
        },
    }
}

// ── Laws ─────────────────────────────────────────────────────────────────

/// Looking a variable up in the environment pairs: absent from an empty
/// environment; a pair added last decides its own key and leaves every
/// other key as it was.
pub proof fn lemma_env_lookup_last_wins(env: Seq<(&str, &str)>, k: &str, v: &str, key: Seq<char>)
    ensures
        env_value(Seq::<(&str, &str)>::empty(), key) is None,
        env_value(env.push((k, v)), k@) == Some(v@),
        key != k@ ==> env_value(env.push((k, v)), key) == env_value(env, key),
{
    assert(env.push((k, v)).drop_last() =~= env);
}

/// Known-bad terminals win: `TERM` of `dumb` or `linux`, or
/// `TERM_PROGRAM` of `apple_terminal`, is unsupported whatever else the
/// environment says.
pub proof fn lemma_known_bad_wins(
    term: Seq<char>,
    program: Seq<char>,
    kitty_window_id: bool,
    wezterm_executable: bool,
    wezterm_pane: bool,
    ghostty_resources: bool,
)
    requires
        term == "dumb"@ || term == "linux"@ || program == "apple_terminal"@,
    ensures
        classify_spec(term, program, kitty_window_id, wezterm_executable, wezterm_pane, ghostty_resources)
            == ImageSupport::Unsupported,
{
}

/// Outside the known-bad terminals and without terminal-specific
/// variables, a `TERM_PROGRAM` of kitty, ghostty, wezterm, konsole,
/// contour or rio, or a `TERM` that mentions kitty, marks a Kitty-protocol
/// terminal; anything else is unknown. Detection never picks `wezterm
/// imgcat` itself: it is only a fallback when installing tools.
pub proof fn lemma_classify_by_names(term: Seq<char>, program: Seq<char>)
    requires
        !(term == "dumb"@ || term == "linux"@ || program == "apple_terminal"@),
    ensures
        (program == "kitty"@ || program == "ghostty"@ || program == "wezterm"@ || program == "konsole"@
            || program == "contour"@ || program == "rio"@ || contains_run(term, "kitty"@)) ==> classify_spec(
            term,
            program,
            false,
            false,
            false,
            false,
        ) == ImageSupport::Supported(DisplayTool::KittenIcat),
        !(program == "kitty"@ || program == "ghostty"@ || program == "wezterm"@ || program
            == "konsole"@ || program == "contour"@ || program == "rio"@ || contains_run(term, "kitty"@))
            ==> classify_spec(term, program, false, false, false, false) == ImageSupport::Unknown,
{
}

/// Detection never yields the `wezterm imgcat` tool.
pub proof fn lemma_detection_prefers_kitty_protocol(
    term: Seq<char>,
    program: Seq<char>,
    kitty_window_id: bool,
    wezterm_executable: bool,
    wezterm_pane: bool,
    ghostty_resources: bool,
)
    ensures
        classify_spec(term, program, kitty_window_id, wezterm_executable, wezterm_pane, ghostty_resources)
            != ImageSupport::Supported(DisplayTool::WeztermImgcat),
{
}

/// Terminal-specific variables (which survive inside tmux, where
/// `TERM_PROGRAM` is `tmux`) mark a Kitty-protocol terminal unless the
/// terminal is known to be bad.
pub proof fn lemma_terminal_vars_detected(
    term: Seq<char>,
    program: Seq<char>,
    kitty_window_id: bool,
    wezterm_executable: bool,
    wezterm_pane: bool,
    ghostty_resources: bool,
)
    requires
        kitty_window_id || wezterm_executable || wezterm_pane || ghostty_resources,
        !(term == "dumb"@ || term == "linux"@ || program == "apple_terminal"@),
    ensures
        classify_spec(term, program, kitty_window_id, wezterm_executable, wezterm_pane, ghostty_resources)
            == ImageSupport::Supported(DisplayTool::KittenIcat),
{
}

/// A display is attempted exactly when a tool was chosen, and `"never"`
/// never attempts one.
pub proof fn lemma_attempt_iff_tool(
    display_override: Seq<char>,
    support: ImageSupport,
    kitten_on_path: bool,
    wezterm_on_path: bool,
)
    ensures
        display_intent_spec(display_override, support, kitten_on_path, wezterm_on_path).0
            == display_intent_spec(display_override, support, kitten_on_path, wezterm_on_path).1 is Some,
        display_override == "never"@ ==> display_intent_spec(
            display_override,
            support,
            kitten_on_path,
            wezterm_on_path,
        ) == (false, None::<DisplayTool>),
{
}

/// How the display decision comes out, for every override, detection
/// result and set of installed tools:
/// - `never` displays nothing;
/// - `always`, or an unknown terminal under any other override, uses
///   `kitten` when installed, else `wezterm` when installed, else nothing;
/// - a terminal known to lack inline images displays nothing (unless
///   `always`);
/// - a Kitty-protocol terminal uses `kitten` when installed, else falls
///   back to `wezterm`, else nothing;
/// - a terminal detected for `wezterm imgcat` uses it only when installed.
///
/// A display is attempted exactly when a tool is chosen.
pub proof fn lemma_display_decision(
    display_override: Seq<char>,
    support: ImageSupport,
    kitten: bool,
    wezterm: bool,
)
    ensures
        ({
            let (attempt, tool) = display_intent_spec(display_override, support, kitten, wezterm);
            let auto = display_override != "never"@ && display_override != "always"@;
            let best = if kitten {
                Some(DisplayTool::KittenIcat)
            } else if wezterm {
                Some(DisplayTool::WeztermImgcat)
            } else {
                None
            };
            &&& attempt == (tool is Some)
            &&& display_override == "never"@ ==> tool is None
            &&& display_override == "always"@ ==> tool == best
            &&& auto && support == ImageSupport::Unknown ==> tool == best
            &&& auto && support == ImageSupport::Unsupported ==> tool is None
            &&& auto && support == ImageSupport::Supported(DisplayTool::KittenIcat) ==> tool == best
            &&& auto && support == ImageSupport::Supported(DisplayTool::WeztermImgcat) ==> tool == (
            if wezterm {
                Some(DisplayTool::WeztermImgcat)
            } else {
                None
            })
        }),
{
    reveal_strlit("never");
    reveal_strlit("always");
    assert("never"@.len() != "always"@.len());
}

/// A chosen tool is installed: `kitten icat` only when `kitten` is on
/// `PATH`, `wezterm imgcat` only when `wezterm` is.
pub proof fn lemma_chosen_tool_installed(
    display_override: Seq<char>,
    support: ImageSupport,
    kitten_on_path: bool,
    wezterm_on_path: bool,
)
    ensures
        display_intent_spec(display_override, support, kitten_on_path, wezterm_on_path).1 == Some(
            DisplayTool::KittenIcat,
        ) ==> kitten_on_path,
        display_intent_spec(display_override, support, kitten_on_path, wezterm_on_path).1 == Some(
            DisplayTool::WeztermImgcat,
        ) ==> wezterm_on_path,
{
}

} // verus!
