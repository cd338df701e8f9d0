//! How a transcript reaches the focused application: which window class is
//! a terminal, which session the tools talk to, and which tool invocations
//! are tried in which order.
use vstd::prelude::*;

use crate::paths::{decode_utf8_lossy, utf8_lossy};
use crate::protocol::opt_string_view;
use crate::text::{
    ascii_lower_seq, chars_equal, chars_of, is_ascii_digit, lower_ascii_chars, strings_view,
};

verus! {

/// How the text is typed into the focused window.
#[derive(Clone, Copy, Debug, PartialEq, Eq, Structural)]
pub enum InsertionMode {
    /// Paste the clipboard with Ctrl+V.
    Standard,
    /// Type the text directly, as Ctrl+Shift shortcuts collide in terminals.
    Terminal,
}

/// Window classes of the terminal emulators that are recognised, in lower
/// case.
pub open spec fn terminal_classes() -> Seq<Seq<char>> {
    seq![
        "alacritty"@,
        "blackbox"@,
        "com.mitchellh.ghostty"@,
        "com.raggesilver.blackbox"@,
        "foot"@,
        "footclient"@,
        "ghostty"@,
        "gnome-terminal"@,
        "gnome-terminal-server"@,
        "io.elementary.terminal"@,
        "kitty"@,
        "konsole"@,
        "lxterminal"@,
        "org.gnome.console"@,
        "org.gnome.terminal"@,
        "org.kde.konsole"@,
        "org.wezfurlong.wezterm"@,
        "st"@,
        "terminator"@,
        "tilix"@,
        "urxvt"@,
        "wezterm"@,
        "xfce4-terminal"@,
        "xterm"@,
    ]
}

pub open spec fn spec_is_terminal_class(class: Seq<char>) -> bool {
    terminal_classes().contains(ascii_lower_seq(class))
}

/// Terminal detection ignores ASCII case: a class is a terminal exactly
/// when its lower-case form is, so two classes that differ only in the case
/// of ASCII letters are both terminals or neither.
pub proof fn law_terminal_class_ignores_case(a: Seq<char>, b: Seq<char>)
    ensures
        spec_is_terminal_class(a) == spec_is_terminal_class(ascii_lower_seq(a)),
        ascii_lower_seq(a) == ascii_lower_seq(b) ==> spec_is_terminal_class(a)
            == spec_is_terminal_class(b),
{
    assert(ascii_lower_seq(ascii_lower_seq(a)) =~= ascii_lower_seq(a));
}

/// The recognised terminal classes are exactly these 24 emulators:
/// Alacritty, Black Box, Ghostty, foot (server and client), GNOME Terminal
/// and Console, elementary Terminal, kitty, Konsole, LXTerminal, WezTerm,
/// st, Terminator, Tilix, urxvt, Xfce Terminal and xterm.
pub proof fn law_terminal_classes_listed()
    ensures
        terminal_classes().len() == 24,
        terminal_classes().contains("alacritty"@),
        terminal_classes().contains("blackbox"@),
        terminal_classes().contains("com.mitchellh.ghostty"@),
        terminal_classes().contains("com.raggesilver.blackbox"@),
        terminal_classes().contains("foot"@),
        terminal_classes().contains("footclient"@),
        terminal_classes().contains("ghostty"@),
        terminal_classes().contains("gnome-terminal"@),
        terminal_classes().contains("gnome-terminal-server"@),
        terminal_classes().contains("io.elementary.terminal"@),
        terminal_classes().contains("kitty"@),
        terminal_classes().contains("konsole"@),
        terminal_classes().contains("lxterminal"@),
        terminal_classes().contains("org.gnome.console"@),
        terminal_classes().contains("org.gnome.terminal"@),
        terminal_classes().contains("org.kde.konsole"@),
        terminal_classes().contains("org.wezfurlong.wezterm"@),
        terminal_classes().contains("st"@),
        terminal_classes().contains("terminator"@),
        terminal_classes().contains("tilix"@),
        terminal_classes().contains("urxvt"@),
        terminal_classes().contains("wezterm"@),
        terminal_classes().contains("xfce4-terminal"@),
        terminal_classes().contains("xterm"@),
{
    assert(terminal_classes()[0] == "alacritty"@);
    assert(terminal_classes()[1] == "blackbox"@);
    assert(terminal_classes()[2] == "com.mitchellh.ghostty"@);
    assert(terminal_classes()[3] == "com.raggesilver.blackbox"@);
    assert(terminal_classes()[4] == "foot"@);
    assert(terminal_classes()[5] == "footclient"@);
    assert(terminal_classes()[6] == "ghostty"@);
    assert(terminal_classes()[7] == "gnome-terminal"@);
    assert(terminal_classes()[8] == "gnome-terminal-server"@);
    assert(terminal_classes()[9] == "io.elementary.terminal"@);
    assert(terminal_classes()[10] == "kitty"@);
    assert(terminal_classes()[11] == "konsole"@);
    assert(terminal_classes()[12] == "lxterminal"@);
    assert(terminal_classes()[13] == "org.gnome.console"@);
    assert(terminal_classes()[14] == "org.gnome.terminal"@);
    assert(terminal_classes()[15] == "org.kde.konsole"@);
    assert(terminal_classes()[16] == "org.wezfurlong.wezterm"@);
    assert(terminal_classes()[17] == "st"@);
    assert(terminal_classes()[18] == "terminator"@);
    assert(terminal_classes()[19] == "tilix"@);
    assert(terminal_classes()[20] == "urxvt"@);
    assert(terminal_classes()[21] == "wezterm"@);
    assert(terminal_classes()[22] == "xfce4-terminal"@);
    assert(terminal_classes()[23] == "xterm"@);
}

fn terminal_class_names() -> (v: [&'static str; 24])
    ensures
        v@.map_values(|s: &str| s@) == terminal_classes(),
{
    let v: [&'static str; 24] = [
        "alacritty",
        "blackbox",
        "com.mitchellh.ghostty",
        "com.raggesilver.blackbox",
        "foot",
        "footclient",
        "ghostty",
        "gnome-terminal",
        "gnome-terminal-server",
        "io.elementary.terminal",
        "kitty",
        "konsole",
        "lxterminal",
        "org.gnome.console",
        "org.gnome.terminal",
        "org.kde.konsole",
        "org.wezfurlong.wezterm",
        "st",
        "terminator",
        "tilix",
        "urxvt",
        "wezterm",
        "xfce4-terminal",
        "xterm",
    ];
    assert(v@.map_values(|s: &str| s@) =~= terminal_classes());
    v
}

/// Whether a window class, compared without regard to ASCII case, is a
/// known terminal emulator.
pub fn is_terminal_class(class: &str) -> (r: bool)
    ensures
        r == spec_is_terminal_class(class@),
{
    let lowered = lower_ascii_chars(class);
    let names = terminal_class_names();
    let ghost classes = names@.map_values(|s: &str| s@);
    let mut i: usize = 0;
    while i < 24
        invariant
            i <= 24,
            names@.len() == 24,
            classes == terminal_classes(),
            classes == names@.map_values(|s: &str| s@),
            lowered@ == ascii_lower_seq(class@),
            forall|k: int| 0 <= k < i ==> classes[k] != lowered@,
        decreases 24 - i,
    {
        let candidate = chars_of(names[i]);
        if chars_equal(&candidate, &lowered) {
            assert(classes[i as int] == lowered@);
            return true;
        }
        i = i + 1;
    }
    assert(!classes.contains(lowered@));
    false
}

/// What the compositor reports of the focused window: its `class` and
/// `initialClass`, where they are strings.
pub struct ActiveWindow {
    pub class: Option<String>,
    pub initial_class: Option<String>,
}

pub open spec fn names_terminal(o: Option<String>) -> bool {
    match o {
        Some(s) => spec_is_terminal_class(s@),
        None => false,
    }
}

/// Terminal mode when either class of the focused window is a terminal;
/// standard mode otherwise, also when nothing is known of the window.
pub fn detect_insertion_mode(window: &Option<ActiveWindow>) -> (m: InsertionMode)
    ensures
        (m == InsertionMode::Terminal) == (match window {
            Some(w) => names_terminal(w.class) || names_terminal(w.initial_class),
            None => false,
        }),
{
    match window {
        Some(w) => {
            let by_class = match &w.class {
                Some(c) => is_terminal_class(c.as_str()),
                None => false,
            };
            let by_initial = match &w.initial_class {
                Some(c) => is_terminal_class(c.as_str()),
                None => false,
            };
            if by_class || by_initial {
                InsertionMode::Terminal
            } else {
                InsertionMode::Standard
            }
        },
        None => InsertionMode::Standard,
    }
}

// ---------------------------------------------------------------------------
// Session discovery
// ---------------------------------------------------------------------------

/// `wayland-` followed by one or more ASCII digits.
pub open spec fn spec_is_wayland_display_name(name: Seq<char>) -> bool {
    let prefix = "wayland-"@;
    &&& name.len() > prefix.len()
    &&& name.take(prefix.len() as int) == prefix
    &&& forall|k: int| prefix.len() <= k < name.len() ==> is_ascii_digit(#[trigger] name[k])
}

/// Whether a runtime-directory entry names a Wayland display socket.
pub fn is_wayland_display_name(name: &str) -> (r: bool)
    ensures
        r == spec_is_wayland_display_name(name@),
{
    let chars = chars_of(name);
    let prefix = chars_of("wayland-");
    let plen = prefix.len();
    if chars.len() <= plen {
        return false;
    }
    let mut i: usize = 0;
    while i < plen
        invariant
            i <= plen,
            plen == prefix@.len(),
            plen < chars@.len(),
            prefix@ == "wayland-"@,
            chars@ == name@,
            forall|k: int| 0 <= k < i ==> chars@[k] == prefix@[k],
        decreases plen - i,
    {
        if chars[i] != prefix[i] {
            assert(chars@.take(plen as int)[i as int] != prefix@[i as int]);
            return false;
        }
        i = i + 1;
    }
    assert(chars@.take(plen as int) =~= prefix@);
    let mut j: usize = plen;
    while j < chars.len()
        invariant
            plen <= j <= chars@.len(),
            plen == "wayland-"@.len(),
            chars@ == name@,
            chars@.take(plen as int) == "wayland-"@,
            forall|k: int| plen <= k < j ==> is_ascii_digit(#[trigger] chars@[k]),
        decreases chars@.len() - j,
    {
        let c = chars[j];
        if !('0' <= c && c <= '9') {
            return false;
        }
        j = j + 1;
    }
    true
}

/// Strict lexicographic order of character sequences, the order of Rust
/// strings (UTF-8 byte order is code point order).
pub open spec fn chars_lt(a: Seq<char>, b: Seq<char>) -> bool
    decreases a.len(),
{
    if a.len() == 0 {
        b.len() > 0
    } else if b.len() == 0 {
        false
    } else if a[0] != b[0] {
        a[0] < b[0]
    } else {
        chars_lt(a.drop_first(), b.drop_first())
    }
}

pub proof fn lemma_chars_lt_irreflexive(a: Seq<char>)
    ensures
        !chars_lt(a, a),
    decreases a.len(),
{
    if a.len() > 0 {
        lemma_chars_lt_irreflexive(a.drop_first());
    }
}

pub proof fn lemma_chars_lt_transitive(a: Seq<char>, b: Seq<char>, c: Seq<char>)
    requires
        chars_lt(a, b),
        chars_lt(b, c),
    ensures
        chars_lt(a, c),
    decreases a.len(),
{
    if a.len() > 0 && b.len() > 0 && c.len() > 0 && a[0] == b[0] && b[0] == c[0] {
        lemma_chars_lt_transitive(a.drop_first(), b.drop_first(), c.drop_first());
    }
}

pub proof fn lemma_chars_lt_total(a: Seq<char>, b: Seq<char>)
    ensures
        a != b ==> chars_lt(a, b) || chars_lt(b, a),
    decreases a.len(),
{
    if a.len() > 0 && b.len() > 0 && a[0] == b[0] {
        lemma_chars_lt_total(a.drop_first(), b.drop_first());
        if a.drop_first() == b.drop_first() {
            assert(a =~= seq![a[0]] + a.drop_first());
            assert(b =~= seq![b[0]] + b.drop_first());
        }
    } else if a.len() == 0 && b.len() == 0 {
        assert(a =~= b);
    }
}

/// Whether `a` sorts before `b` as Rust strings do.
pub fn chars_less(a: &Vec<char>, b: &Vec<char>) -> (r: bool)
    ensures
        r == chars_lt(a@, b@),
{
    let mut i: usize = 0;
    assert(a@.skip(0) =~= a@);
    assert(b@.skip(0) =~= b@);
    while i < a.len() && i < b.len() && a[i] == b[i]
        invariant
            i <= a@.len(),
            i <= b@.len(),
            chars_lt(a@, b@) == chars_lt(a@.skip(i as int), b@.skip(i as int)),
        decreases a@.len() - i,
    {
        assert(a@.skip(i as int).drop_first() =~= a@.skip(i + 1));
        assert(b@.skip(i as int).drop_first() =~= b@.skip(i + 1));
        i = i + 1;
    }
    if i == a.len() {
        i < b.len()
    } else if i == b.len() {
        false
    } else {
        a[i] < b[i]
    }
}

/// An entry of the runtime directory: its name where it is UTF-8, and
/// whether it is a socket.
pub struct SocketEntry {
    pub name: Option<String>,
    pub is_socket: bool,
}

pub open spec fn is_display_candidate(e: SocketEntry) -> bool {
    &&& e.is_socket
    &&& e.name is Some
    &&& spec_is_wayland_display_name(e.name->0@)
}

/// Which session variables a tool's environment must be given: each one
/// the environment lacks, looked up only where the runtime directory is
/// known.
#[derive(Clone, Copy, Debug, PartialEq, Eq, Structural)]
pub struct SessionPlan {
    /// Look up the Wayland display for `WAYLAND_DISPLAY`.
    pub find_display: bool,
    /// Look up the compositor instance for `HYPRLAND_INSTANCE_SIGNATURE`.
    pub find_instance: bool,
}

/// A session variable is filled in only when the environment lacks it and
/// the runtime directory is known; one that is set is left as it is.
pub fn plan_session(display_set: bool, instance_set: bool, runtime_dir_known: bool) -> (p:
    SessionPlan)
    ensures
        p.find_display == (!display_set && runtime_dir_known),
        p.find_instance == (!instance_set && runtime_dir_known),
{
    SessionPlan {
        find_display: !display_set && runtime_dir_known,
        find_instance: !instance_set && runtime_dir_known,
    }
}

/// The greatest name, in string order, of the runtime directory's Wayland
/// display sockets; none when there is no such socket.
pub fn find_wayland_display(entries: &Vec<SocketEntry>) -> (r: Option<String>)
    ensures
        r is None <==> (forall|i: int| 0 <= i < entries@.len() ==> !is_display_candidate(
            #[trigger] entries@[i],
        )),
        r matches Some(n) ==> (exists|i: int|
            0 <= i < entries@.len() && is_display_candidate(#[trigger] entries@[i])
                && entries@[i].name->0@ == n@),
        r matches Some(n) ==> (forall|i: int|
            0 <= i < entries@.len() && is_display_candidate(#[trigger] entries@[i]) ==> !chars_lt(
                n@,
                entries@[i].name->0@,
            )),
        r matches Some(n) ==> (forall|i: int|
            0 <= i < entries@.len() && is_display_candidate(#[trigger] entries@[i])
                ==> entries@[i].name->0@ == n@ || chars_lt(entries@[i].name->0@, n@)),
{
    let mut best: Option<usize> = None;
    let mut best_chars: Vec<char> = Vec::new();
    let mut i: usize = 0;
    while i < entries.len()
        invariant
            i <= entries@.len(),
            best is None <==> (forall|k: int| 0 <= k < i ==> !is_display_candidate(
                #[trigger] entries@[k],
            )),
            best matches Some(b) ==> b < i && is_display_candidate(entries@[b as int])
                && best_chars@ == entries@[b as int].name->0@,
            best matches Some(b) ==> (forall|k: int|
                0 <= k < i && is_display_candidate(#[trigger] entries@[k]) ==> !chars_lt(
                    best_chars@,
                    entries@[k].name->0@,
                )),
        decreases entries@.len() - i,
    {
        let e = &entries[i];
        if e.is_socket {
            match &e.name {
                Some(n) => {
                    if is_wayland_display_name(n.as_str()) {
                        let c = chars_of(n.as_str());
                        let take = match best {
                            None => true,
                            Some(_) => chars_less(&best_chars, &c),
                        };
                        if take {
                            proof {
                                if best is Some {
                                    assert forall|k: int|
                                        0 <= k < i && is_display_candidate(
                                            #[trigger] entries@[k],
                                        ) implies !chars_lt(c@, entries@[k].name->0@) by {
                                        let x = entries@[k].name->0@;
                                        if chars_lt(c@, x) {
                                            lemma_chars_lt_transitive(best_chars@, c@, x);
                                        }
                                    }
                                }
                                lemma_chars_lt_irreflexive(c@);
                            }
                            best = Some(i);
                            best_chars = c;
                        }
                    }
                },
                None => {},
            }
        }
        i = i + 1;
    }
    proof {
        assert forall|k: int|
            0 <= k < entries@.len() && is_display_candidate(#[trigger] entries@[k]) implies (
            entries@[k].name->0@ == best_chars@ || chars_lt(entries@[k].name->0@, best_chars@))
            by {
            lemma_chars_lt_total(entries@[k].name->0@, best_chars@);
        }
    }
    match best {
        Some(b) => match &entries[b].name {
            Some(n) => Some(n.clone()),
            None => None,
        },
        None => None,
    }
}

/// An entry of the compositor's instance directory: its name where it is
/// UTF-8, whether it holds the instance's socket, and its modification
/// time, in nanoseconds from the Unix epoch, where the system gave one.
pub struct InstanceEntry {
    pub name: Option<String>,
    pub has_socket: bool,
    pub modified: Option<i128>,
}

/// The order of `Option<SystemTime>`: no time sorts first.
pub open spec fn time_lt(a: Option<i128>, b: Option<i128>) -> bool {
    match (a, b) {
        (None, Some(_)) => true,
        (Some(x), Some(y)) => x < y,
        _ => false,
    }
}

/// Entry `j` is the last of the entries with a socket whose time is
/// greatest.
pub open spec fn is_last_latest(entries: Seq<InstanceEntry>, j: int) -> bool {
    &&& 0 <= j < entries.len()
    &&& entries[j].has_socket
    &&& forall|k: int|
        0 <= k < entries.len() && (#[trigger] entries[k]).has_socket ==> !time_lt(
            entries[j].modified,
            entries[k].modified,
        )
    &&& forall|k: int|
        j < k < entries.len() && (#[trigger] entries[k]).has_socket ==> time_lt(
            entries[k].modified,
            entries[j].modified,
        )
}

fn time_less(a: Option<i128>, b: Option<i128>) -> (r: bool)
    ensures
        r == time_lt(a, b),
{
    match (a, b) {
        (None, Some(_)) => true,
        (Some(x), Some(y)) => x < y,
        _ => false,
    }
}

/// The compositor instance to talk to: of the instances with a socket, the
/// one modified last (the last listed among equals), by name; none when
/// there is no such instance or its name is not UTF-8.
pub fn find_hyprland_signature(entries: &Vec<InstanceEntry>) -> (r: Option<String>)
    ensures
        (forall|i: int| 0 <= i < entries@.len() ==> !(#[trigger] entries@[i]).has_socket) ==> r
            is None,
        (exists|i: int| 0 <= i < entries@.len() && (#[trigger] entries@[i]).has_socket) ==> (
        exists|j: int|
            is_last_latest(entries@, j) && opt_string_view(r) == opt_string_view(
                #[trigger] entries@[j].name,
            )),
{
    let mut best: Option<usize> = None;
    let mut i: usize = 0;
    while i < entries.len()
        invariant
            i <= entries@.len(),
            best is None <==> (forall|k: int| 0 <= k < i ==> !(#[trigger] entries@[k]).has_socket),
            best matches Some(b) ==> b < i && entries@[b as int].has_socket,
            best matches Some(b) ==> (forall|k: int|
                0 <= k < i && (#[trigger] entries@[k]).has_socket ==> !time_lt(
                    entries@[b as int].modified,
                    entries@[k].modified,
                )),
            best matches Some(b) ==> (forall|k: int|
                b < k < i && (#[trigger] entries@[k]).has_socket ==> time_lt(
                    entries@[k].modified,
                    entries@[b as int].modified,
                )),
        decreases entries@.len() - i,
    {
        if entries[i].has_socket {
            let take = match best {
                None => true,
                Some(b) => !time_less(entries[i].modified, entries[b].modified),
            };
            if take {
                best = Some(i);
            }
        }
        i = i + 1;
    }
    match best {
        Some(b) => {
            assert(is_last_latest(entries@, b as int));
            match &entries[b].name {
                Some(n) => Some(n.clone()),
                None => None,
            }
        },
        None => None,
    }
}

// ---------------------------------------------------------------------------
// Typing the text
// ---------------------------------------------------------------------------

/// A tool that types into the focused window.
#[derive(Clone, Copy, Debug, PartialEq, Eq, Structural)]
pub enum InsertionTool {
    Wtype,
    Ydotool,
}

impl InsertionTool {
    pub open spec fn spec_program(self) -> Seq<char> {
        match self {
            InsertionTool::Wtype => "wtype"@,
            InsertionTool::Ydotool => "ydotool"@,
        }
    }

    pub fn program(&self) -> (s: &'static str)
        ensures
            s@ == self.spec_program(),
    {
        match self {
            InsertionTool::Wtype => "wtype",
            InsertionTool::Ydotool => "ydotool",
        }
    }

    /// Whether the tool is run with the Wayland and compositor session
    /// found for it.
    pub fn uses_session(&self) -> (b: bool)
        ensures
            b == (*self == InsertionTool::Wtype),
    {
        match self {
            InsertionTool::Wtype => true,
            InsertionTool::Ydotool => false,
        }
    }
}

/// One invocation of an insertion tool.
pub struct ToolInvocation {
    pub tool: InsertionTool,
    pub args: Vec<String>,
}


/// `wtype` types the text itself in a terminal, and presses Ctrl+V
/// elsewhere.
pub open spec fn wtype_args(mode: InsertionMode, text: Seq<char>) -> Seq<Seq<char>> {
    match mode {
        InsertionMode::Terminal => seq!["--"@, text],
        InsertionMode::Standard => seq!["-M"@, "ctrl"@, "-k"@, "v"@, "-m"@, "ctrl"@],
    }
}

/// `ydotool` presses Ctrl+V, or Shift+Insert in a terminal.
pub open spec fn ydotool_args(mode: InsertionMode) -> Seq<Seq<char>> {
    match mode {
        InsertionMode::Standard => seq!["key"@, "29:1"@, "47:1"@, "47:0"@, "29:0"@],
        InsertionMode::Terminal => seq!["key"@, "42:1"@, "110:1"@, "110:0"@, "42:0"@],
    }
}

pub open spec fn invocation_is(inv: ToolInvocation, tool: InsertionTool, args: Seq<Seq<char>>) -> bool {
    inv.tool == tool && strings_view(inv.args@) == args
}

fn strings_of(items: &[&str]) -> (v: Vec<String>)
    ensures
        strings_view(v@) == items@.map_values(|s: &str| s@),
{
    let mut v: Vec<String> = Vec::new();
    let mut i: usize = 0;
    while i < items.len()
        invariant
            i <= items@.len(),
            v@.len() == i,
            strings_view(v@) == items@.take(i as int).map_values(|s: &str| s@),
        decreases items@.len() - i,
    {
        let ghost before = v@;
        let s = String::from_str(items[i]);
        v.push(s);
        assert forall|k: int| 0 <= k < i + 1 implies #[trigger] strings_view(v@)[k]
            == items@.take(i + 1).map_values(|s: &str| s@)[k] by {
            if k < i {
                assert(v@[k] == before[k]);
                assert(strings_view(before)[k] == items@.take(i as int).map_values(|s: &str| s@)[k]);
            }
        }
        assert(strings_view(v@) =~= items@.take(i + 1).map_values(|s: &str| s@));
        i = i + 1;
    }
    assert(items@.take(items@.len() as int) =~= items@);
    v
}

fn wtype_invocation(mode: InsertionMode, text: &str) -> (inv: ToolInvocation)
    ensures
        invocation_is(inv, InsertionTool::Wtype, wtype_args(mode, text@)),
{
    let args = match mode {
        InsertionMode::Terminal => {
            let items: [&str; 2] = ["--", text];
            let v = strings_of(&items);
            assert(items@.map_values(|s: &str| s@) =~= seq!["--"@, text@]);
            v
        },
        InsertionMode::Standard => {
            let items: [&str; 6] = ["-M", "ctrl", "-k", "v", "-m", "ctrl"];
            let v = strings_of(&items);
            assert(items@.map_values(|s: &str| s@) =~= seq![
                "-M"@,
                "ctrl"@,
                "-k"@,
                "v"@,
                "-m"@,
                "ctrl"@,
            ]);
            v
        },
    };
    ToolInvocation { tool: InsertionTool::Wtype, args }
}

fn ydotool_invocation(mode: InsertionMode) -> (inv: ToolInvocation)
    ensures
        invocation_is(inv, InsertionTool::Ydotool, ydotool_args(mode)),
{
    let args = match mode {
        InsertionMode::Standard => {
            let items: [&str; 5] = ["key", "29:1", "47:1", "47:0", "29:0"];
            let v = strings_of(&items);
            assert(items@.map_values(|s: &str| s@) =~= seq![
                "key"@,
                "29:1"@,
                "47:1"@,
                "47:0"@,
                "29:0"@,
            ]);
            v
        },
        InsertionMode::Terminal => {
            let items: [&str; 5] = ["key", "42:1", "110:1", "110:0", "42:0"];
            let v = strings_of(&items);
            assert(items@.map_values(|s: &str| s@) =~= seq![
                "key"@,
                "42:1"@,
                "110:1"@,
                "110:0"@,
                "42:0"@,
            ]);
            v
        },
    };
    ToolInvocation { tool: InsertionTool::Ydotool, args }
}

/// The invocations to try, in order, until one succeeds: `wtype` when it
/// is installed, then `ydotool` when it is installed. When none succeeds the
/// insertion fails.
pub fn insertion_attempts(
    text: &str,
    mode: InsertionMode,
    wtype_available: bool,
    ydotool_available: bool,
) -> (v: Vec<ToolInvocation>)
    ensures
        v@.len() == (if wtype_available { 1int } else { 0int }) + (if ydotool_available {
            1int
        } else {
            0int
        }),
        wtype_available ==> invocation_is(v@[0], InsertionTool::Wtype, wtype_args(mode, text@)),
        ydotool_available ==> invocation_is(
            v@[v@.len() - 1],
            InsertionTool::Ydotool,
            ydotool_args(mode),
        ),
{
    let mut v: Vec<ToolInvocation> = Vec::new();
    if wtype_available {
        v.push(wtype_invocation(mode, text));
    }
    if ydotool_available {
        v.push(ydotool_invocation(mode));
    }
    v
}

/// What to do next while typing the text.
#[derive(Clone, Copy, Debug, PartialEq, Eq, Structural)]
pub enum InsertionStep {
    /// Run the attempt at this index of the list.
    Try(usize),
    /// An attempt succeeded; stop.
    Done,
    /// Every attempt failed; the insertion fails.
    Fail,
}

/// The next step after `tried` of `count` attempts were run, the last of
/// them having succeeded or not: stop at the first success, else run the
/// next attempt, and fail when none is left.
pub fn insertion_step(tried: usize, last_succeeded: bool, count: usize) -> (s: InsertionStep)
    requires
        tried <= count,
    ensures
        tried > 0 && last_succeeded ==> s == InsertionStep::Done,
        !(tried > 0 && last_succeeded) && tried < count ==> s == InsertionStep::Try(tried),
        !(tried > 0 && last_succeeded) && tried == count ==> s == InsertionStep::Fail,
{
    if tried > 0 && last_succeeded {
        InsertionStep::Done
    } else if tried < count {
        InsertionStep::Try(tried)
    } else {
        InsertionStep::Fail
    }
}

/// The outcome of typing with attempts whose successes are `outcomes`, run
/// in order by `insertion_step` from the first: `Some(k)` when attempt `k`
/// is the first to succeed (and the last run), `None` when all fail.
pub open spec fn first_success(outcomes: Seq<bool>) -> Option<int>
    decreases outcomes.len(),
{
    if outcomes.len() == 0 {
        None
    } else if outcomes[0] {
        Some(0)
    } else {
        match first_success(outcomes.drop_first()) {
            Some(k) => Some(k + 1),
            None => None,
        }
    }
}

/// The attempt at which the insertion stops when the steps of
/// `insertion_step` are followed over attempts whose successes are
/// `outcomes`, from `tried` attempts run, the last of which succeeded when
/// `last`; none when the insertion fails.
pub open spec fn drive_steps(outcomes: Seq<bool>, tried: int, last: bool) -> Option<int>
    decreases outcomes.len() - tried,
{
    if tried > 0 && last {
        Some(tried - 1)
    } else if 0 <= tried < outcomes.len() {
        drive_steps(outcomes, tried + 1, outcomes[tried])
    } else {
        None
    }
}

/// Stepping through the attempts with `insertion_step` stops at the first
/// attempt that succeeds, and fails only when every attempt fails.
pub proof fn law_insertion_stops_at_first_success(outcomes: Seq<bool>)
    ensures
        drive_steps(outcomes, 0, false) == first_success(outcomes),
        first_success(outcomes) is None <==> (forall|k: int|
            0 <= k < outcomes.len() ==> !outcomes[k]),
{
    lemma_drive_from(outcomes, 0);
    assert(outcomes.skip(0) =~= outcomes);
    lemma_first_success(outcomes);
}

proof fn lemma_drive_from(outcomes: Seq<bool>, i: int)
    requires
        0 <= i <= outcomes.len(),
    ensures
        drive_steps(outcomes, i, false) == (match first_success(outcomes.skip(i)) {
            Some(k) => Some(k + i),
            None => None,
        }),
    decreases outcomes.len() - i,
{
    if i < outcomes.len() {
        let rest = outcomes.skip(i);
        assert(rest[0] == outcomes[i]);
        assert(rest.drop_first() =~= outcomes.skip(i + 1));
        if outcomes[i] {
            assert(drive_steps(outcomes, i + 1, true) == Some(i));
        } else {
            lemma_drive_from(outcomes, i + 1);
        }
    } else {
        assert(outcomes.skip(i).len() == 0);
    }
}

proof fn lemma_first_success(outcomes: Seq<bool>)
    ensures
        first_success(outcomes) is None <==> (forall|k: int|
            0 <= k < outcomes.len() ==> !outcomes[k]),
        first_success(outcomes) matches Some(k) ==> 0 <= k < outcomes.len() && outcomes[k]
            && forall|j: int| 0 <= j < k ==> !outcomes[j],
    decreases outcomes.len(),
{
    if outcomes.len() > 0 {
        let rest = outcomes.drop_first();
        lemma_first_success(rest);
        assert forall|k: int| 1 <= k < outcomes.len() implies outcomes[k] == rest[k - 1] by {}
        if !outcomes[0] && first_success(rest) is None {
            assert forall|k: int| 0 <= k < outcomes.len() implies !outcomes[k] by {
                if k > 0 {
                    assert(!rest[k - 1]);
                }
            }
        }
    }
}

/// Why no insertion tool typed the text.
pub fn no_insertion_tool_message() -> (s: String)
    ensures
        s@ == "no working text-insertion tool is available (wtype or ydotool)"@,
{
    String::from_str("no working text-insertion tool is available (wtype or ydotool)")
}

/// The clipboard's text from the clipboard tool's output: its standard
/// output, decoded leniently, when the tool succeeded; nothing otherwise.
pub fn clipboard_text(success: bool, stdout: &[u8]) -> (r: Option<String>)
    ensures
        success ==> (r matches Some(s) && s@ == utf8_lossy(stdout@)),
        !success ==> r is None,
{
    if success {
        Some(decode_utf8_lossy(stdout))
    } else {
        None
    }
}

} // verus!
