//! Labels: shortening window titles for the quit prompt, recognising the
//! desktop's own windows by class name, and quoting the program path.
use vstd::prelude::*;
use crate::wide::{decode_utf16_lossy, spec_decode_lossy};

verus! {

/// The longest window title the quit prompt shows, in characters.
pub const TITLE_MAX_CHARS: usize = 32;

/// The three dots that end a shortened label.
pub open spec fn ellipsis() -> Seq<char> {
    seq!['.', '.', '.']
}

/// `value` shortened to at most `max_chars` characters: unchanged if it
/// fits; otherwise its first `max_chars - 3` characters and `...`, or only
/// dots where `max_chars` leaves no room for text.
pub open spec fn spec_truncate(value: Seq<char>, max_chars: nat) -> Seq<char> {
    if value.len() <= max_chars {
        value
    } else if max_chars <= 3 {
        Seq::new(max_chars, |i: int| '.')
    } else {
        value.take(max_chars - 3) + ellipsis()
    }
}

/// Shortens `value` to at most `max_chars` characters, marking a cut with
/// an ASCII ellipsis.
pub fn truncate_label(value: &str, max_chars: usize) -> (r: String)
    ensures
        r@ == spec_truncate(value@, max_chars as nat),
{
    let char_count = value.unicode_len();
    if char_count <= max_chars {
        return String::from_str(value);
    }
    proof {
        reveal_strlit(".");
        reveal_strlit("...");
    }
    if max_chars <= 3 {
        let mut dots = String::new();
        let mut i: usize = 0;
        while i < max_chars
            invariant
                i <= max_chars,
                dots@ == Seq::new(i as nat, |k: int| '.'),
            decreases max_chars - i,
        {
            proof {
                reveal_strlit(".");
            }
            dots.append(".");
            i = i + 1;
            assert(dots@ =~= Seq::new(i as nat, |k: int| '.'));
        }
        return dots;
    }
    let head = value.substring_char(0, max_chars - 3);
    let mut truncated = String::from_str(head);
    truncated.append("...");
    assert(truncated@ =~= value@.take(max_chars - 3) + ellipsis());
    truncated
}

/// A shortened label is never longer than the limit, and is as long as the
/// limit whenever it had to be shortened.
pub proof fn lemma_truncate_length(value: Seq<char>, max_chars: nat)
    ensures
        spec_truncate(value, max_chars).len() == if value.len() <= max_chars {
            value.len()
        } else {
            max_chars
        },
{
}

/// A shortened label keeps the start of the full text: with room for
/// text, it begins with the text's first `max_chars - 3` characters and
/// ends with `...`.
pub proof fn lemma_truncate_keeps_prefix(value: Seq<char>, max_chars: nat)
    requires
        value.len() > max_chars,
        max_chars > 3,
    ensures
        spec_truncate(value, max_chars).take(max_chars - 3) == value.take(max_chars - 3),
        spec_truncate(value, max_chars).skip(max_chars - 3) == ellipsis(),
{
    let r = spec_truncate(value, max_chars);
    assert(r.take(max_chars - 3) =~= value.take(max_chars - 3));
    assert(r.skip(max_chars - 3) =~= ellipsis());
}

/// Whether `c` has the Unicode `White_Space` property, the whitespace that
/// `str::trim` removes.
pub open spec fn is_white_space(c: char) -> bool {
    let v = c as int;
    ||| 0x09 <= v <= 0x0D
    ||| v == 0x20
    ||| v == 0x85
    ||| v == 0xA0
    ||| v == 0x1680
    ||| 0x2000 <= v <= 0x200A
    ||| v == 0x2028
    ||| v == 0x2029
    ||| v == 0x202F
    ||| v == 0x205F
    ||| v == 0x3000
}

/// The number of whitespace characters at the start of `s`.
pub open spec fn leading_white(s: Seq<char>) -> nat
    decreases s.len(),
{
    if s.len() == 0 {
        0
    } else if is_white_space(s[0]) {
        1 + leading_white(s.drop_first())
    } else {
        0
    }
}

/// The number of whitespace characters at the end of `s`.
pub open spec fn trailing_white(s: Seq<char>) -> nat
    decreases s.len(),
{
    if s.len() == 0 {
        0
    } else if is_white_space(s.last()) {
        1 + trailing_white(s.drop_last())
    } else {
        0
    }
}

/// `s` without its leading and trailing whitespace.
pub open spec fn spec_trim(s: Seq<char>) -> Seq<char> {
    let lead = leading_white(s);
    if lead >= s.len() {
        Seq::empty()
    } else {
        s.subrange(lead as int, s.len() - trailing_white(s))
    }
}

/// Whether `c` has the Unicode `White_Space` property.
fn is_white_space_char(c: char) -> (r: bool)
    ensures
        r == is_white_space(c),
{
    let v = c as u32;
    (0x09 <= v && v <= 0x0D) || v == 0x20 || v == 0x85 || v == 0xA0 || v == 0x1680 || (0x2000
        <= v && v <= 0x200A) || v == 0x2028 || v == 0x2029 || v == 0x202F || v == 0x205F || v
        == 0x3000
}

/// The leading whitespace of `s` is its first `i` characters when they are
/// all whitespace and the next one (if any) is not.
proof fn lemma_leading_white(s: Seq<char>, i: nat)
    requires
        i <= s.len(),
        forall|k: int| 0 <= k < i ==> is_white_space(#[trigger] s[k]),
        i == s.len() || !is_white_space(s[i as int]),
    ensures
        leading_white(s) == i,
    decreases i,
{
    if i > 0 {
        let t = s.drop_first();
        assert forall|k: int| 0 <= k < i - 1 implies is_white_space(#[trigger] t[k]) by {
            assert(t[k] == s[k + 1]);
        }
        if i < s.len() {
            assert(t[i - 1] == s[i as int]);
        }
        lemma_leading_white(t, (i - 1) as nat);
        assert(is_white_space(s[0]));
    }
}

/// The trailing whitespace of `s` is its last `i` characters when they are
/// all whitespace and the one before them (if any) is not.
proof fn lemma_trailing_white(s: Seq<char>, i: nat)
    requires
        i <= s.len(),
        forall|k: int| s.len() - i <= k < s.len() ==> is_white_space(#[trigger] s[k]),
        i == s.len() || !is_white_space(s[s.len() - 1 - i]),
    ensures
        trailing_white(s) == i,
    decreases i,
{
    if i > 0 {
        let t = s.drop_last();
        assert forall|k: int| t.len() - (i - 1) <= k < t.len() implies is_white_space(
            #[trigger] t[k],
        ) by {
            assert(t[k] == s[k]);
        }
        if i < s.len() {
            assert(t[t.len() - 1 - (i - 1)] == s[s.len() - 1 - i]);
        }
        lemma_trailing_white(t, (i - 1) as nat);
        assert(is_white_space(s[s.len() - 1]));
    }
}

/// `s` without its leading and trailing characters of the Unicode
/// `White_Space` property, as `str::trim` gives it.
pub fn trim_white_space(s: &str) -> (r: &str)
    ensures
        r@ == spec_trim(s@),
{
    let n = s.unicode_len();
    let mut lead: usize = 0;
    while lead < n
        invariant
            n == s@.len(),
            lead <= n,
            forall|k: int| 0 <= k < lead ==> is_white_space(#[trigger] s@[k]),
        ensures
            lead <= n,
            forall|k: int| 0 <= k < lead ==> is_white_space(#[trigger] s@[k]),
            lead == n || !is_white_space(s@[lead as int]),
        decreases n - lead,
    {
        if !is_white_space_char(s.get_char(lead)) {
            break;
        }
        lead = lead + 1;
    }
    proof {
        lemma_leading_white(s@, lead as nat);
    }
    if lead == n {
        let empty = s.substring_char(0, 0);
        assert(empty@ =~= Seq::<char>::empty());
        return empty;
    }
    let mut trail: usize = 0;
    while trail < n - lead
        invariant
            n == s@.len(),
            lead < n,
            trail <= n - lead,
            forall|k: int| n - trail <= k < n ==> is_white_space(#[trigger] s@[k]),
        ensures
            trail <= n - lead,
            forall|k: int| n - trail <= k < n ==> is_white_space(#[trigger] s@[k]),
            trail == n - lead || !is_white_space(s@[n - 1 - trail]),
        decreases n - lead - trail,
    {
        if !is_white_space_char(s.get_char(n - 1 - trail)) {
            break;
        }
        trail = trail + 1;
    }
    if trail == n - lead {
        assert(is_white_space(s@[lead as int]));
    }
    proof {
        lemma_trailing_white(s@, trail as nat);
    }
    s.substring_char(lead, n - trail)
}

/// Whether two strings hold the same characters.
pub fn same_text(a: &str, b: &str) -> (r: bool)
    ensures
        r == (a@ == b@),
{
    let n = a.unicode_len();
    if n != b.unicode_len() {
        return false;
    }
    let mut i: usize = 0;
    while i < n
        invariant
            n == a@.len(),
            n == b@.len(),
            i <= n,
            forall|k: int| 0 <= k < i ==> a@[k] == b@[k],
        decreases n - i,
    {
        if a.get_char(i) != b.get_char(i) {
            return false;
        }
        i = i + 1;
    }
    assert(a@ =~= b@);
    true
}

/// The desktop's own windows: the taskbar and the two desktop background
/// windows.
pub open spec fn spec_is_shell_class(class_name: Seq<char>) -> bool {
    ||| class_name == "Shell_TrayWnd"@
    ||| class_name == "Progman"@
    ||| class_name == "WorkerW"@
}

/// Whether a window class belongs to the taskbar or the desktop.
pub fn is_shell_window_class(class_name: &str) -> (r: bool)
    ensures
        r == spec_is_shell_class(class_name@),
{
    same_text(class_name, "Shell_TrayWnd") || same_text(class_name, "Progman") || same_text(
        class_name,
        "WorkerW",
    )
}

/// A window the shortcuts may act on: a real window, not the taskbar or the
/// desktop, and either titled or visible.
pub open spec fn spec_is_manageable(
    hwnd: isize,
    class_name: Seq<char>,
    title_len: i32,
    visible: bool,
) -> bool {
    &&& hwnd != 0
    &&& !spec_is_shell_class(class_name)
    &&& !(title_len == 0 && !visible)
}

/// A window counts as the taskbar or the desktop exactly when its class is
/// one of `Shell_TrayWnd`, `Progman` and `WorkerW`; any other non-null window
/// is managed whenever it is titled or visible.
pub proof fn lemma_manageable_classes(hwnd: isize, class_name: Seq<char>, title_len: i32, visible: bool)
    ensures
        spec_is_shell_class(class_name) <==> (class_name == "Shell_TrayWnd"@ || class_name
            == "Progman"@ || class_name == "WorkerW"@),
        spec_is_manageable(hwnd, class_name, title_len, visible) <==> (hwnd != 0 && class_name
            != "Shell_TrayWnd"@ && class_name != "Progman"@ && class_name != "WorkerW"@ && (
        title_len != 0 || visible)),
{
}

/// Whether the shortcuts may act on the window `hwnd`, given its class
/// name, the length of its title and whether it is visible.
pub fn is_manageable_window(hwnd: isize, class_name: &str, title_len: i32, visible: bool) -> (r:
    bool)
    ensures
        r == spec_is_manageable(hwnd, class_name@, title_len, visible),
{
    if hwnd == 0 {
        return false;
    }
    if is_shell_window_class(class_name) {
        return false;
    }
    if title_len == 0 && !visible {
        return false;
    }
    true
}

/// The title shown for an untitled window.
pub open spec fn untitled_label() -> Seq<char> {
    "Current window"@
}

/// The label the quit prompt shows for a window: its trimmed title,
/// shortened to the title limit, or a stand-in for a window without a title.
pub open spec fn spec_window_title_label(text_length: i32, title: Seq<char>) -> Seq<char> {
    if text_length <= 0 {
        untitled_label()
    } else {
        spec_truncate(spec_trim(title), TITLE_MAX_CHARS as nat)
    }
}

/// The label for a window whose title has `text_length` UTF-16 units (as the
/// system reports it) and reads `title_units`.
pub fn window_title_label(text_length: i32, title_units: &[u16]) -> (r: String)
    ensures
        r@ == spec_window_title_label(text_length, spec_decode_lossy(title_units@)),
{
    if text_length <= 0 {
        return String::from_str("Current window");
    }
    let title = decode_utf16_lossy(title_units);
    let trimmed = trim_white_space(title.as_str());
    truncate_label(trimmed, TITLE_MAX_CHARS)
}

/// `path` in double quotes, as the Run key wants a program path that may
/// hold spaces.
pub fn quote_path(path: &str) -> (r: String)
    ensures
        r@ == seq!['"'] + path@ + seq!['"'],
{
    proof {
        reveal_strlit("\"");
    }
    let mut quoted = String::from_str("\"");
    quoted.append(path);
    quoted.append("\"");
    quoted
}

} // verus!
