//! Command-line dispatch: which of the three modes the executable runs in.
use crate::text::{copy_string, lowercase, str_equals, to_lowercase_str};
use vstd::prelude::*;

verus! {

/// The mode selected by the command line.
#[derive(Debug, PartialEq, Eq)]
pub enum AppMode {
    /// `--service`: run as the Windows service.
    Service,
    /// `--interceptor <path> [args...]`: prompt for the password of a locked application.
    Interceptor { app_name: String, app_path: String, forward_args: Vec<String> },
    /// Anything else: open the management panel.
    ManagementPanel,
}

/// A path separator on Windows.
pub open spec fn is_path_sep(c: char) -> bool {
    c == '\\' || c == '/'
}

/// An ASCII letter (a valid drive letter).
pub open spec fn is_ascii_letter(c: char) -> bool {
    ('a' <= c && c <= 'z') || ('A' <= c && c <= 'Z')
}

/// A separator: `\` always, and `/` too except after a verbatim (`\\?\`) prefix.
pub open spec fn is_sep_in(c: char, verbatim: bool) -> bool {
    c == '\\' || (!verbatim && c == '/')
}

/// Index of the first separator at or after `i` (`s.len()` where there is none).
pub open spec fn next_sep(s: Seq<char>, i: int, verbatim: bool) -> int
    decreases s.len() - i,
{
    if i >= s.len() {
        s.len() as int
    } else if is_sep_in(s[i], verbatim) {
        i
    } else {
        next_sep(s, i + 1, verbatim)
    }
}

/// The prefix of a Windows path, as `std`'s Windows path parser reads it: its length,
/// and whether it is verbatim (`\\?\`, after which only `\` separates). Verbatim
/// prefixes are `\\?\UNC\server\share`, `\\?\C:` and `\\?\name`; then come device
/// names `\\.\name`, UNC shares `\\server\share` (both names non-empty) and drives
/// `C:`. The first two or four separators may be `/` except in a verbatim prefix.
pub open spec fn win_prefix(s: Seq<char>) -> (int, bool) {
    if s.len() >= 2 && is_path_sep(s[0]) && is_path_sep(s[1]) {
        if s.len() >= 4 && s[0] == '\\' && s[1] == '\\' && s[2] == '?' && s[3] == '\\' {
            if s.len() >= 8 && s[4] == 'U' && s[5] == 'N' && s[6] == 'C' && is_path_sep(s[7]) {
                let a = next_sep(s, 8, true);
                if a >= s.len() {
                    (s.len() as int, true)
                } else {
                    let b = next_sep(s, a + 1, true);
                    if b == a + 1 {
                        (a, true)
                    } else {
                        (b, true)
                    }
                }
            } else if s.len() >= 6 && is_ascii_letter(s[4]) && s[5] == ':' && (s.len() == 6 || s[6]
                == '\\') {
                (6, true)
            } else {
                (next_sep(s, 4, true), true)
            }
        } else if s.len() >= 4 && s[2] == '.' && is_path_sep(s[3]) {
            (next_sep(s, 4, false), false)
        } else {
            let a = next_sep(s, 2, false);
            if 2 < a < s.len() && next_sep(s, a + 1, false) > a + 1 {
                (next_sep(s, a + 1, false), false)
            } else {
                (0, false)
            }
        }
    } else if s.len() >= 2 && is_ascii_letter(s[0]) && s[1] == ':' {
        (2, false)
    } else {
        (0, false)
    }
}

/// Start of the path component that ends at `end` (within `s[lo..end]`).
pub open spec fn component_start(s: Seq<char>, lo: int, end: int, verbatim: bool) -> int
    decreases end - lo,
{
    if end <= lo {
        lo
    } else if is_sep_in(s[end - 1], verbatim) {
        end
    } else {
        component_start(s, lo, end - 1, verbatim)
    }
}

/// Last normal component of `s[lo..end]`: trailing separators are skipped, and so are
/// `.` components outside verbatim paths; a last component `..` (or a verbatim `.`)
/// has no file name.
pub open spec fn name_within(s: Seq<char>, lo: int, end: int, verbatim: bool) -> Option<Seq<char>>
    decreases end - lo,
{
    if end <= lo {
        None
    } else if is_sep_in(s[end - 1], verbatim) {
        name_within(s, lo, end - 1, verbatim)
    } else {
        let comp = s.subrange(component_start(s, lo, end, verbatim), end);
        if comp == seq!['.'] {
            if verbatim {
                None
            } else {
                name_within(s, lo, end - 1, verbatim)
            }
        } else if comp == seq!['.', '.'] {
            None
        } else {
            Some(comp)
        }
    }
}

/// The file name of a Windows path (`Path::file_name` on Windows): its last normal
/// component after the prefix.
pub open spec fn windows_file_name(s: Seq<char>) -> Option<Seq<char>> {
    name_within(s, win_prefix(s).0, s.len() as int, win_prefix(s).1)
}

/// The application name derived from an intercepted path: its file name, lower-cased
/// (`unknown.exe` when the path has no file name).
pub open spec fn interceptor_app_name(path: Seq<char>) -> Seq<char> {
    match windows_file_name(path) {
        Some(n) => lowercase(n),
        None => lowercase("unknown.exe"@),
    }
}

/// The mode for a command line (`args[0]` is the executable).
pub open spec fn cli_mode(args: Seq<Seq<char>>, mode: AppMode) -> bool {
    if args.len() > 1 && args[1] == "--service"@ {
        mode == AppMode::Service
    } else if args.len() > 1 && args[1] == "--interceptor"@ {
        let path = if args.len() > 2 {
            args[2]
        } else {
            Seq::<char>::empty()
        };
        match mode {
            AppMode::Interceptor { app_name, app_path, forward_args } => {
                &&& app_path@ == path
                &&& app_name@ == interceptor_app_name(path)
                &&& forward_args.deep_view() == (if args.len() > 3 {
                    args.skip(3)
                } else {
                    Seq::<Seq<char>>::empty()
                })
            },
            _ => false,
        }
    } else {
        mode == AppMode::ManagementPanel
    }
}

/// A path that does not start with a separator (a drive path such as `C:\\...` or a
/// relative one) and ends in `\\` followed by a plain name (non-empty, without
/// separators, neither `.` nor `..`) has that name as its file name.
pub proof fn file_name_is_last_component(dir: Seq<char>, name: Seq<char>)
    requires
        dir.len() == 0 || !is_path_sep(dir[0]),
        name.len() > 0,
        forall|k: int| 0 <= k < name.len() ==> !is_path_sep(#[trigger] name[k]),
        name != seq!['.'],
        name != seq!['.', '.'],
    ensures
        windows_file_name(dir + seq!['\\'] + name) == Some(name),
{
    let s = dir + seq!['\\'] + name;
    let st: int = dir.len() as int + 1;
    let end = s.len() as int;
    assert(s[0] == if dir.len() == 0 { '\\' } else { dir[0] });
    if dir.len() == 0 {
        assert(s.len() >= 2 ==> s[1] == name[0]);
    }
    let p = win_prefix(s);
    assert(p.0 <= dir.len());
    assert forall|j: int| st <= j < end implies !is_sep_in(s[j], p.1) by {
        assert(s[j] == name[j - st]);
    }
    assert(s[end - 1] == name[name.len() - 1]);
    lemma_component_start(s, p.0, st, end, p.1);
    assert(s.subrange(st, end) =~= name);
}

/// `--interceptor <path>` forwards every argument after the path, in order, however
/// many there are (a single document opened through a file association included), and
/// keeps the path as given.
pub proof fn interceptor_forwards_every_argument(args: Seq<Seq<char>>, mode: AppMode)
    requires
        cli_mode(args, mode),
        args.len() >= 3,
        args[1] == "--interceptor"@,
    ensures
        mode matches AppMode::Interceptor { app_path, forward_args, .. } && app_path@ == args[2]
            && forward_args.deep_view().len() == args.len() - 3 && forall|k: int|
            0 <= k < args.len() - 3 ==> #[trigger] forward_args.deep_view()[k] == args[k + 3],
{
    reveal_strlit("--interceptor");
    reveal_strlit("--service");
    assert(args[1][2] != "--service"@[2]);
}

/// `next_sep` lies between `i` and the end, at a separator, with none before it.
proof fn lemma_next_sep(s: Seq<char>, i: int, verbatim: bool)
    requires
        0 <= i <= s.len(),
    ensures
        i <= next_sep(s, i, verbatim) <= s.len(),
        next_sep(s, i, verbatim) < s.len() ==> is_sep_in(s[next_sep(s, i, verbatim)], verbatim),
        forall|k: int| i <= k < next_sep(s, i, verbatim) ==> !is_sep_in(#[trigger] s[k], verbatim),
    decreases s.len() - i,
{
    if i < s.len() && !is_sep_in(s[i], verbatim) {
        lemma_next_sep(s, i + 1, verbatim);
    }
}

/// `s[lo..end]` holds no separator and `lo` is where its component starts.
proof fn lemma_component_start(s: Seq<char>, lo: int, st: int, end: int, verbatim: bool)
    requires
        lo <= st <= end <= s.len(),
        st == lo || is_sep_in(s[st - 1], verbatim),
        forall|j: int| st <= j < end ==> !is_sep_in(s[j], verbatim),
    ensures
        component_start(s, lo, end, verbatim) == st,
    decreases end - lo,
{
    if end > st {
        lemma_component_start(s, lo, st, end - 1, verbatim);
    }
}

fn is_sep_char(c: char, verbatim: bool) -> (r: bool)
    ensures
        r == is_sep_in(c, verbatim),
{
    c == '\\' || (!verbatim && c == '/')
}

fn is_any_sep(c: char) -> (r: bool)
    ensures
        r == is_path_sep(c),
{
    c == '\\' || c == '/'
}

fn is_letter(c: char) -> (r: bool)
    ensures
        r == is_ascii_letter(c),
{
    ('a' <= c && c <= 'z') || ('A' <= c && c <= 'Z')
}

/// The first separator at or after `i`.
fn find_sep(path: &str, len: usize, i: usize, verbatim: bool) -> (r: usize)
    requires
        len == path@.len(),
        i <= len,
    ensures
        r == next_sep(path@, i as int, verbatim),
{
    let ghost s = path@;
    let mut j = i;
    while j < len && !is_sep_char(path.get_char(j), verbatim)
        invariant
            len == s.len(),
            s == path@,
            i <= j <= len,
            next_sep(s, j as int, verbatim) == next_sep(s, i as int, verbatim),
        decreases len - j,
    {
        j = j + 1;
    }
    j
}

/// The prefix of a Windows path: its length and whether it is verbatim.
fn prefix_of(path: &str, len: usize) -> (r: (usize, bool))
    requires
        len == path@.len(),
    ensures
        r.0 == win_prefix(path@).0,
        r.1 == win_prefix(path@).1,
{
    let ghost s = path@;
    if len >= 2 && is_any_sep(path.get_char(0)) && is_any_sep(path.get_char(1)) {
        if len >= 4 && path.get_char(0) == '\\' && path.get_char(1) == '\\' && path.get_char(2)
            == '?' && path.get_char(3) == '\\' {
            if len >= 8 && path.get_char(4) == 'U' && path.get_char(5) == 'N' && path.get_char(6)
                == 'C' && is_any_sep(path.get_char(7)) {
                let a = find_sep(path, len, 8, true);
                proof {
                    lemma_next_sep(s, 8, true);
                }
                if a >= len {
                    (len, true)
                } else {
                    let b = find_sep(path, len, a + 1, true);
                    if b == a + 1 {
                        (a, true)
                    } else {
                        (b, true)
                    }
                }
            } else if len >= 6 && is_letter(path.get_char(4)) && path.get_char(5) == ':' && (len
                == 6 || path.get_char(6) == '\\') {
                (6, true)
            } else {
                (find_sep(path, len, 4, true), true)
            }
        } else if len >= 4 && path.get_char(2) == '.' && is_any_sep(path.get_char(3)) {
            (find_sep(path, len, 4, false), false)
        } else {
            let a = find_sep(path, len, 2, false);
            proof {
                lemma_next_sep(s, 2, false);
            }
            if 2 < a && a < len {
                let b = find_sep(path, len, a + 1, false);
                if b > a + 1 {
                    (b, false)
                } else {
                    (0, false)
                }
            } else {
                (0, false)
            }
        }
    } else if len >= 2 && is_letter(path.get_char(0)) && path.get_char(1) == ':' {
        (2, false)
    } else {
        (0, false)
    }
}

/// The file name of a Windows path, as `Path::file_name` computes it on Windows.
pub fn file_name_of(path: &str) -> (r: Option<String>)
    ensures
        match r {
            Some(n) => windows_file_name(path@) == Some(n@),
            None => windows_file_name(path@) is None,
        },
{
    let len = path.unicode_len();
    let ghost s = path@;
    let (lo, verbatim) = prefix_of(path, len);
    proof {
        if s.len() >= 2 && is_path_sep(s[0]) && is_path_sep(s[1]) {
            if s.len() >= 4 && s[0] == '\\' && s[1] == '\\' && s[2] == '?' && s[3] == '\\' {
                if s.len() >= 8 && s[4] == 'U' && s[5] == 'N' && s[6] == 'C' && is_path_sep(s[7]) {
                    lemma_next_sep(s, 8, true);
                    let a = next_sep(s, 8, true);
                    if a < s.len() {
                        lemma_next_sep(s, a + 1, true);
                    }
                } else {
                    lemma_next_sep(s, 4, true);
                }
            } else if s.len() >= 4 && s[2] == '.' && is_path_sep(s[3]) {
                lemma_next_sep(s, 4, false);
            } else {
                lemma_next_sep(s, 2, false);
                let a = next_sep(s, 2, false);
                if a < s.len() {
                    lemma_next_sep(s, a + 1, false);
                }
            }
        }
    }
    assert(lo <= len);
    let mut end = len;
    while end > lo
        invariant
            len == s.len(),
            s == path@,
            lo == win_prefix(s).0,
            verbatim == win_prefix(s).1,
            lo <= end <= len,
            name_within(s, lo as int, end as int, verbatim) == windows_file_name(s),
        decreases end - lo,
    {
        if is_sep_char(path.get_char(end - 1), verbatim) {
            end = end - 1;
        } else {
            let mut st = end - 1;
            while st > lo && !is_sep_char(path.get_char(st - 1), verbatim)
                invariant
                    len == s.len(),
                    s == path@,
                    lo <= st < end <= len,
                    forall|j: int| st <= j < end ==> !is_sep_in(s[j], verbatim),
                decreases st - lo,
            {
                st = st - 1;
            }
            proof {
                lemma_component_start(s, lo as int, st as int, end as int, verbatim);
            }
            let comp = path.substring_char(st, end);
            if end - st == 1 && comp.get_char(0) == '.' {
                assert(comp@ =~= seq!['.']);
                if verbatim {
                    return None;
                }
                end = end - 1;
            } else if end - st == 2 && comp.get_char(0) == '.' && comp.get_char(1) == '.' {
                assert(comp@ =~= seq!['.', '.']);
                return None;
            } else {
                proof {
                    if comp@ == seq!['.'] {
                        assert(comp@[0] == '.');
                    }
                    if comp@ == seq!['.', '.'] {
                        assert(comp@[0] == '.' && comp@[1] == '.');
                    }
                    assert(comp@ == s.subrange(st as int, end as int));
                    assert(name_within(s, lo as int, end as int, verbatim) == Some(comp@));
                }
                return Some(copy_string(comp));
            }
        }
    }
    None
}

/// Copies `args[from..]`.
fn copy_tail(args: &[String], from: usize) -> (r: Vec<String>)
    requires
        from <= args@.len(),
    ensures
        r.deep_view() == args.deep_view().skip(from as int),
{
    let mut out: Vec<String> = Vec::new();
    let mut i = from;
    while i < args.len()
        invariant
            from <= i <= args@.len(),
            out.deep_view() == args.deep_view().subrange(from as int, i as int),
        decreases args@.len() - i,
    {
        let ghost before = out.deep_view();
        let item = args[i].clone();
        out.push(item);
        proof {
            assert(out.deep_view() =~= before.push(args@[i as int]@));
            assert(out.deep_view() =~= args.deep_view().subrange(from as int, i + 1));
        }
        i = i + 1;
    }
    proof {
        assert(args.deep_view().subrange(from as int, args@.len() as int) =~= args.deep_view().skip(
            from as int,
        ));
    }
    out
}

/// Chooses the mode from the command line: `--service`, `--interceptor <path> [args...]`
/// (the application name is the lower-cased file name of `path`, the remaining
/// arguments are forwarded), or the management panel for anything else.
pub fn parse_cli_args(args: &[String]) -> (r: AppMode)
    ensures
        cli_mode(args.deep_view(), r),
{
    let n = args.len();
    if n > 1 && str_equals(args[1].as_str(), "--service") {
        AppMode::Service
    } else if n > 1 && str_equals(args[1].as_str(), "--interceptor") {
        let app_path = if n > 2 {
            args[2].clone()
        } else {
            String::new()
        };
        let app_name = match file_name_of(app_path.as_str()) {
            Some(name) => to_lowercase_str(name.as_str()),
            None => to_lowercase_str("unknown.exe"),
        };
        let forward_args = if n > 3 {
            copy_tail(args, 3)
        } else {
            Vec::new()
        };
        proof {
            if n <= 3 {
                assert(forward_args.deep_view() =~= Seq::<Seq<char>>::empty());
            }
        }
        AppMode::Interceptor { app_name, app_path, forward_args }
    } else {
        AppMode::ManagementPanel
    }
}

} // verus!
