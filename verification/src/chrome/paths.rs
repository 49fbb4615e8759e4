//! Profile paths: how they are named, compared and owned.
//!
//! A path is its text. What the file system alone can tell (a path's
//! canonical form) is found out before these functions are called.

use crate::models::{ProcessInfo, WindowInfo};
use crate::text::{
    byte_len, char_is_space, chars_of, concat3, contains, drop_prefixes, find_chars, find_from, hex,
    hex_text, is_space, join, joined, lemma_find_from, lemma_first_of, lower, lowercase, occurs,
    occurs_at, pad, padded, replace_char, replaced, same, split, split_on, starts_with,
    to_lowercase, utf8_len, views, without_prefixes,
};
use vstd::prelude::*;
use vstd::string::*;

verus! {

/// The segments of a path with `.` and `..` resolved and empty ones left out.
pub open spec fn resolved(segments: Seq<Seq<char>>) -> Seq<Seq<char>>
    decreases segments.len(),
{
    if segments.len() == 0 {
        Seq::empty()
    } else {
        let before = resolved(segments.drop_last());
        let segment = segments.last();
        if segment == ""@ || segment == "."@ {
            before
        } else if segment == ".."@ {
            if before.len() == 0 {
                before
            } else {
                before.drop_last()
            }
        } else {
            before.push(segment)
        }
    }
}

/// On what system a path stands: that decides what separates its parts, and
/// whether the case of its letters counts.
#[derive(Debug, Clone, Copy, PartialEq, Eq, Structural)]
pub enum PathStyle {
    /// Backslashes and slashes separate, and case does not count.
    Windows,
    /// Slashes separate, and case counts.
    Unix,
}

/// A path with forward slashes, without a `\\?\` prefix, and with its segments
/// resolved.
pub open spec fn straight(path: Seq<char>) -> Seq<char> {
    joined(
        resolved(split_on(without_prefixes(replaced(path, '\\', '/'), "//?/"@), '/')),
        "/"@,
    )
}

/// A path for comparison: straight, and in lower case on Windows.
pub open spec fn normal(path: Seq<char>, style: PathStyle) -> Seq<char> {
    match style {
        PathStyle::Windows => lowercase(straight(path)),
        PathStyle::Unix => straight(path),
    }
}

/// The path with forward slashes, without a `\\?\` prefix, and with its segments
/// resolved.
pub fn straighten(path: &str) -> (r: String)
    ensures
        r@ == straight(path@),
{
    let slashed = replace_char(path, '\\', '/');
    let bare = drop_prefixes(&slashed, "//?/");
    let segments = split(&bare, '/');
    let ghost all = views(segments@);
    let mut stack: Vec<String> = Vec::new();
    let mut i: usize = 0;
    assert(views(stack@) == Seq::<Seq<char>>::empty());
    while i < segments.len()
        invariant
            i <= segments@.len(),
            views(segments@) == all,
            views(stack@) == resolved(all.take(i as int)),
        decreases segments@.len() - i,
    {
        let ghost before = views(stack@);
        let ghost piece = segments@[i as int]@;
        assert(all[i as int] == piece);
        assert(all.take(i + 1).drop_last() == all.take(i as int));
        if same(&segments[i], "") || same(&segments[i], ".") {
        } else if same(&segments[i], "..") {
            let dropped = stack.pop();
            assert(views(stack@) == (if before.len() == 0 {
                before
            } else {
                before.drop_last()
            }));
        } else {
            stack.push(segments[i].clone());
            assert(views(stack@) == before.push(piece));
        }
        i = i + 1;
    }
    assert(all.take(all.len() as int) == all);
    join(&stack, "/")
}

/// The path for comparison.
pub fn norm(path: &str, style: PathStyle) -> (r: String)
    ensures
        r@ == normal(path@, style),
{
    let plain = straighten(path);
    match style {
        PathStyle::Windows => to_lowercase(&plain),
        PathStyle::Unix => plain,
    }
}

/// Of two paths in their forms for comparison: is `path` strictly inside `root`?
pub open spec fn within(path: Seq<char>, root: Seq<char>) -> bool {
    &&& root.len() > 0
    &&& (root + seq!['/']).is_prefix_of(path)
}

/// Is `path` strictly inside `root`?
pub open spec fn inside(path: Seq<char>, root: Seq<char>, style: PathStyle) -> bool {
    within(normal(path, style), normal(root, style))
}

/// Of two paths in their forms for comparison: is `path` strictly inside
/// `root`? The root itself, and what merely begins with the same letters, is
/// not.
pub fn is_within(path: &str, root: &str) -> (r: bool)
    ensures
        r == within(path@, root@),
{
    if root.is_empty() {
        return false;
    }
    let mut prefix = root.to_owned();
    prefix.push('/');
    assert(prefix@ == root@ + seq!['/']);
    starts_with(path, &prefix)
}

/// Is `path` strictly inside `root`?
pub fn contained_under(path: &str, root: &str, style: PathStyle) -> (r: bool)
    ensures
        r == inside(path@, root@, style),
{
    is_within(&norm(path, style), &norm(root, style))
}

/// Nothing is inside itself.
pub proof fn law_not_inside_itself(path: Seq<char>, style: PathStyle)
    ensures
        !inside(path, path, style),
{
}

/// What is inside something that is inside a root is inside the root.
pub proof fn law_inside_is_transitive(
    path: Seq<char>,
    middle: Seq<char>,
    root: Seq<char>,
    style: PathStyle,
)
    requires
        inside(path, middle, style),
        inside(middle, root, style),
    ensures
        inside(path, root, style),
{
    let p = normal(path, style);
    let m = normal(middle, style) + seq!['/'];
    let r = normal(root, style) + seq!['/'];
    assert(r.is_prefix_of(p)) by {
        let n = normal(middle, style);
        assert(p.subrange(0, r.len() as int) == n.subrange(0, r.len() as int)) by {
            assert forall|k: int| 0 <= k < r.len() implies p[k] == n[k] by {
                assert(p.subrange(0, m.len() as int)[k] == m[k]);
            }
        }
    }
}

/// Of two paths at most one is inside the other.
pub proof fn law_inside_one_way(a: Seq<char>, b: Seq<char>, style: PathStyle)
    requires
        inside(a, b, style),
    ensures
        !inside(b, a, style),
{
}

/// Does `c` end a path component?
pub open spec fn ends_component(c: char) -> bool {
    c == '/' || c == '"' || is_space(c)
}

/// A path as it is looked for in a command line: forward slashes, no `\\?\`
/// prefix, ASCII lower case.
pub open spec fn needle_of(profile: Seq<char>) -> Seq<char> {
    crate::text::ascii_lower(without_prefixes(replaced(profile, '\\', '/'), "//?/"@))
}

/// A command line as paths are looked for in it.
pub open spec fn hay_of(cmdline: Seq<char>) -> Seq<char> {
    crate::text::ascii_lower(replaced(cmdline, '\\', '/'))
}

/// Does `needle` stand in `hay` as a whole path component, looking from `from`
/// on and going on behind each occurrence that is none?
pub open spec fn component_from(hay: Seq<char>, needle: Seq<char>, from: int) -> bool
    decreases hay.len() - from,
{
    if needle.len() == 0 || from < 0 {
        false
    } else {
        match find_from(hay, needle, from) {
            None => false,
            Some(at) => {
                let end = at + needle.len();
                if end >= hay.len() || ends_component(hay[end]) {
                    true
                } else if end <= from || end > hay.len() {
                    false
                } else {
                    component_from(hay, needle, end)
                }
            },
        }
    }
}

/// Does the command line belong to the browser that owns `profile`?
pub open spec fn owns(cmdline: Seq<char>, profile: Seq<char>) -> bool {
    component_from(hay_of(cmdline), needle_of(profile), 0)
}

/// Does the command line belong to the browser that owns `profile`? Only a
/// command line that names the profile directory, whole, does: a directory
/// whose name merely begins with the profile's never matches.
pub fn owned_tree_match(cmdline: &str, profile: &str) -> (r: bool)
    ensures
        r == owns(cmdline@, profile@),
{
    let needle = chars_of(&lower(&drop_prefixes(&replace_char(profile, '\\', '/'), "//?/")));
    let hay = chars_of(&lower(&replace_char(cmdline, '\\', '/')));
    if needle.len() == 0 {
        return false;
    }
    let total: usize = hay.len();
    let mut start: usize = 0;
    loop
        invariant
            needle@.len() > 0,
            total == hay@.len(),
            start <= hay@.len(),
            needle@ == needle_of(profile@),
            hay@ == hay_of(cmdline@),
            owns(cmdline@, profile@) == component_from(hay@, needle@, start as int),
        decreases total - start,
    {
        proof {
            lemma_find_from(hay@, needle@, start as int);
        }
        match find_chars(&hay, &needle, start) {
            None => {
                return false;
            },
            Some(at) => {
                assert(at + needle@.len() <= total);
                let end: usize = at + needle.len();
                if end >= hay.len() || hay[end] == '/' || hay[end] == '"' || char_is_space(
                    hay[end],
                ) {
                    return true;
                }
                start = end;
            },
        }
    }
}

/// A command line that matches holds the whole profile path, and behind it the
/// end of the line or a character that ends a path component.
pub proof fn law_owned_match_is_whole(cmdline: Seq<char>, profile: Seq<char>)
    requires
        owns(cmdline, profile),
    ensures
        needle_of(profile).len() > 0,
        exists|at: int|
            {
                &&& #[trigger] occurs_at(hay_of(cmdline), needle_of(profile), at)
                &&& at + needle_of(profile).len() < hay_of(cmdline).len() ==> ends_component(
                    hay_of(cmdline)[at + needle_of(profile).len()],
                )
            },
{
    lemma_component(hay_of(cmdline), needle_of(profile), 0);
}

proof fn lemma_component(hay: Seq<char>, needle: Seq<char>, from: int)
    requires
        component_from(hay, needle, from),
    ensures
        needle.len() > 0,
        exists|at: int|
            {
                &&& #[trigger] occurs_at(hay, needle, at)
                &&& at + needle.len() < hay.len() ==> ends_component(hay[at + needle.len()])
            },
    decreases hay.len() - from,
{
    lemma_find_from(hay, needle, from);
    let at = find_from(hay, needle, from)->0;
    let end = at + needle.len();
    if end >= hay.len() || ends_component(hay[end]) {
        assert(occurs_at(hay, needle, at));
    } else {
        lemma_component(hay, needle, end as int);
    }
}

/// A path with slashes as its only separators.
pub open spec fn slashed(path: Seq<char>, style: PathStyle) -> Seq<char> {
    match style {
        PathStyle::Windows => replaced(path, '\\', '/'),
        PathStyle::Unix => path,
    }
}

/// The last segment of a path.
pub open spec fn last_segment(path: Seq<char>, style: PathStyle) -> Seq<char> {
    split_on(slashed(path, style), '/').last()
}

/// The last segment of a path.
pub fn file_name_of(path: &str, style: PathStyle) -> (r: String)
    ensures
        r@ == last_segment(path@, style),
{
    let segments = match style {
        PathStyle::Windows => split(&replace_char(path, '\\', '/'), '/'),
        PathStyle::Unix => split(path, '/'),
    };
    proof {
        lemma_split_nonempty(slashed(path@, style), '/');
    }
    assert(views(segments@).len() > 0);
    let n: usize = segments.len();
    assert(views(segments@).last() == segments@[n - 1]@);
    segments[n - 1].clone()
}

proof fn lemma_split_nonempty(s: Seq<char>, c: char)
    ensures
        split_on(s, c).len() > 0,
{
    lemma_first_of(s, seq![c], 0);
}

/// Why a directory is not removed, or `None` where it may be.
pub open spec fn cleanup_refusal(profile: Seq<char>, root: Seq<char>, style: PathStyle) -> Option<
    Seq<char>,
> {
    if !inside(profile, root, style) {
        Some(
            "refusing to delete "@ + profile
                + ": not strictly contained under the managed root "@ + root,
        )
    } else if !"session-"@.is_prefix_of(last_segment(profile, style)) {
        Some("refusing to delete "@ + profile + ": not a WinKit-owned session directory"@)
    } else {
        None
    }
}

/// May the directory `profile` be removed? Both paths are canonical. Refuses
/// whatever is not strictly inside the managed root and named as a session.
pub fn check_cleanup(profile: &str, root: &str, style: PathStyle) -> (r: Result<(), String>)
    ensures
        match r {
            Ok(_) => cleanup_refusal(profile@, root@, style) is None,
            Err(e) => cleanup_refusal(profile@, root@, style) == Some(e@),
        },
{
    if !contained_under(profile, root, style) {
        let mut e = concat3(
            "refusing to delete ",
            profile,
            ": not strictly contained under the managed root ",
        );
        e.append(root);
        return Err(e);
    }
    if !starts_with(&file_name_of(profile, style), "session-") {
        return Err(
            concat3("refusing to delete ", profile, ": not a WinKit-owned session directory"),
        );
    }
    Ok(())
}

/// Only a session-named directory strictly inside the managed root is ever
/// removed; the root itself never is.
pub proof fn law_cleanup_is_contained(profile: Seq<char>, root: Seq<char>, style: PathStyle)
    requires
        cleanup_refusal(profile, root, style) is None,
    ensures
        inside(profile, root, style),
        "session-"@.is_prefix_of(last_segment(profile, style)),
        profile != root,
        cleanup_refusal(root, root, style) is Some,
{
    law_not_inside_itself(root, style);
}

/// Is a path, whose text and parent the file system gave, the root of a drive?
pub fn is_drive_root(path: &str, has_parent: bool) -> (r: bool)
    ensures
        r == (!has_parent && utf8_len(path@) >= 2 && occurs(path@, ":"@)),
{
    !has_parent && byte_len(path) >= 2 && contains(path, ":")
}

/// The name of a session: `wk-`, the time in milliseconds in hexadecimal, and
/// the running number in eight hexadecimal digits.
pub open spec fn session_id(unix_ms: nat, n: nat) -> Seq<char> {
    "wk-"@ + hex(unix_ms) + "-"@ + padded(hex(n), '0', 8)
}

/// The name of the `n`th session, started at `unix_ms`.
pub fn make_session_id(unix_ms: u64, n: u64) -> (r: String)
    ensures
        r@ == session_id(unix_ms as nat, n as nat),
{
    let mut s = concat3("wk-", &hex_text(unix_ms), "-");
    s.append(&pad(&hex_text(n), '0', 8));
    s
}

/// Does the character separate the parts of a path?
pub open spec fn separates(c: char, style: PathStyle) -> bool {
    c == '/' || (style == PathStyle::Windows && c == '\\')
}

/// The directory of a session's profile, directly under the managed root.
pub open spec fn profile_dir(root: Seq<char>, id: Seq<char>, style: PathStyle) -> Seq<char> {
    if root.len() == 0 || separates(root.last(), style) {
        root + "session-"@ + id
    } else if style == PathStyle::Windows {
        root + "\\"@ + "session-"@ + id
    } else {
        root + "/"@ + "session-"@ + id
    }
}

/// The directory of a session's profile, directly under the managed root.
pub fn session_profile_dir(root: &str, session_id: &str, style: PathStyle) -> (r: String)
    ensures
        r@ == profile_dir(root@, session_id@, style),
{
    let v = chars_of(root);
    let windows = style == PathStyle::Windows;
    let mut dir = root.to_owned();
    if v.len() > 0 && v[v.len() - 1] != '/' && !(windows && v[v.len() - 1] == '\\') {
        if windows {
            dir.append("\\");
        } else {
            dir.append("/");
        }
    }
    dir.append("session-");
    dir.append(session_id);
    dir
}

/// Does some process of `processes` with this number own `profile`?
pub open spec fn owner_pid(processes: Seq<ProcessInfo>, profile: Seq<char>, pid: u32) -> bool {
    exists|i: int|
        0 <= i < processes.len() && (#[trigger] processes[i]).pid == pid
            && processes[i].command_line is Some && owns(
            processes[i].command_line->0@,
            profile,
        )
}

/// Is `w` a visible, not minimised window of the browser that owns `profile`?
pub open spec fn owned_visible(
    processes: Seq<ProcessInfo>,
    profile: Seq<char>,
    w: WindowInfo,
) -> bool {
    w.visible && !w.minimized && owner_pid(processes, profile, w.process_id)
}

fn has_owner(processes: &Vec<ProcessInfo>, profile: &str, pid: u32) -> (r: bool)
    ensures
        r == owner_pid(processes@, profile@, pid),
{
    let mut i: usize = 0;
    while i < processes.len()
        invariant
            i <= processes@.len(),
            forall|k: int|
                0 <= k < i ==> !((#[trigger] processes@[k]).pid == pid
                    && processes@[k].command_line is Some && owns(
                    processes@[k].command_line->0@,
                    profile@,
                )),
        decreases processes@.len() - i,
    {
        if processes[i].pid == pid {
            match &processes[i].command_line {
                Some(c) => {
                    if owned_tree_match(c, profile) {
                        return true;
                    }
                },
                None => {},
            }
        }
        i = i + 1;
    }
    false
}

/// The first visible, not minimised window of the browser that owns `profile`,
/// by its place in `windows`. Another browser's windows never match.
pub fn find_owned_visible_window(
    processes: &Vec<ProcessInfo>,
    windows: &Vec<WindowInfo>,
    profile: &str,
) -> (r: Option<usize>)
    ensures
        match r {
            Some(i) => i < windows@.len() && owned_visible(
                processes@,
                profile@,
                windows@[i as int],
            ) && (forall|k: int|
                0 <= k < i ==> !owned_visible(processes@, profile@, #[trigger] windows@[k])),
            None => forall|k: int|
                0 <= k < windows@.len() ==> !owned_visible(
                    processes@,
                    profile@,
                    #[trigger] windows@[k],
                ),
        },
{
    let mut i: usize = 0;
    while i < windows.len()
        invariant
            i <= windows@.len(),
            forall|k: int|
                0 <= k < i ==> !owned_visible(processes@, profile@, #[trigger] windows@[k]),
        decreases windows@.len() - i,
    {
        if windows[i].visible && !windows[i].minimized && has_owner(
            processes,
            profile,
            windows[i].process_id,
        ) {
            return Some(i);
        }
        i = i + 1;
    }
    None
}

/// Empty segments and single dots change nothing, two dots take back the segment before
/// them, and any other segment is kept at the end.
pub proof fn law_dots_are_resolved(segments: Seq<Seq<char>>, name: Seq<char>)
    requires
        name != ""@,
        name != "."@,
        name != ".."@,
    ensures
        resolved(segments.push(""@)) == resolved(segments),
        resolved(segments.push("."@)) == resolved(segments),
        resolved(segments.push(name)) == resolved(segments).push(name),
        resolved(segments.push(name).push(".."@)) == resolved(segments),
        resolved(seq![".."@]) == Seq::<Seq<char>>::empty(),
{
    reveal_strlit("");
    reveal_strlit(".");
    reveal_strlit("..");
    assert(""@.len() == 0 && "."@.len() == 1 && ".."@.len() == 2);
    assert(segments.push(""@).drop_last() =~= segments);
    assert(segments.push("."@).drop_last() =~= segments);
    assert(segments.push(name).drop_last() =~= segments);
    assert(segments.push(name).push(".."@).drop_last() =~= segments.push(name));
    assert(resolved(segments).push(name).drop_last() =~= resolved(segments));
    assert(seq![".."@].drop_last() =~= Seq::<Seq<char>>::empty());
    assert(resolved(Seq::<Seq<char>>::empty()) =~= Seq::<Seq<char>>::empty());
}

/// What is inside a root is the root, a slash, and more or nothing; the root itself is
/// not, and nothing is inside an empty one.
pub proof fn law_inside_is_behind_a_slash(root: &str, path: &str, r: bool, rest: Seq<char>)
    requires
        call_ensures(is_within, (path, root), r),
    ensures
        root@.len() > 0 && path@ == root@ + seq!['/'] + rest ==> r,
        root@.len() == 0 ==> !r,
        path@ == root@ ==> !r,
        path@.len() > root@.len() && path@[root@.len() as int] != '/' ==> !r,
        r ==> path@.len() > root@.len() && path@.take(root@.len() as int) == root@
            && path@[root@.len() as int] == '/',
{
    let head = root@ + seq!['/'];
    if path@ == head + rest {
        assert(path@.subrange(0, head.len() as int) =~= head);
    }
    if head.is_prefix_of(path@) {
        assert(path@.subrange(0, head.len() as int)[root@.len() as int] == head[root@.len() as int]);
        assert(path@.take(root@.len() as int) =~= root@) by {
            assert forall|k: int| 0 <= k < root@.len() implies path@[k] == root@[k] by {
                assert(path@.subrange(0, head.len() as int)[k] == head[k]);
            }
        }
    }
}

/// On both systems paths are compared by their straight forms; where case does not
/// count, by those in lower case.
pub proof fn law_paths_compare_by_their_straight_forms(
    path: &str,
    root: &str,
    style: PathStyle,
    r: bool,
)
    requires
        call_ensures(contained_under, (path, root, style), r),
    ensures
        style == PathStyle::Unix ==> (r <==> within(straight(path@), straight(root@))),
        style == PathStyle::Windows ==> (r <==> within(
            lowercase(straight(path@)),
            lowercase(straight(root@)),
        )),
{
}

/// A command line that names the profile directory, with the end of the line, a slash,
/// a quote or white space behind it wherever it does, is its owner's.
pub proof fn law_named_profiles_are_found(cmdline: &str, profile: &str, r: bool)
    requires
        call_ensures(owned_tree_match, (cmdline, profile), r),
        needle_of(profile@).len() > 0,
        occurs(hay_of(cmdline@), needle_of(profile@)),
        forall|at: int| #[trigger]
            occurs_at(hay_of(cmdline@), needle_of(profile@), at) ==> at + needle_of(
                profile@,
            ).len() == hay_of(cmdline@).len() || {
                let next = hay_of(cmdline@)[at + needle_of(profile@).len()];
                next == '/' || next == '"' || is_space(next)
            },
    ensures
        r,
{
    let (hay, needle) = (hay_of(cmdline@), needle_of(profile@));
    lemma_find_from(hay, needle, 0);
    let at = choose|at: int| occurs_at(hay, needle, at);
    assert(occurs_at(hay, needle, at));
    assert(find_from(hay, needle, 0) is Some);
    let first = find_from(hay, needle, 0)->0;
    assert(occurs_at(hay, needle, first));
}

/// A profile directory stands directly under the root: the root, one separator where it
/// has none at its end, and the name of the session behind `session-`.
pub proof fn law_profiles_stand_under_the_root(
    root: &str,
    session_id: &str,
    style: PathStyle,
    r: String,
)
    requires
        call_ensures(session_profile_dir, (root, session_id, style), r),
        root@.len() > 0,
    ensures
        root@.last() == '/' ==> r@ == root@ + "session-"@ + session_id@,
        root@.last() == '\\' && style == PathStyle::Windows ==> r@ == root@ + "session-"@
            + session_id@,
        root@.last() != '/' && root@.last() != '\\' && style == PathStyle::Windows ==> r@ == root@
            + seq!['\\'] + "session-"@ + session_id@,
        root@.last() != '/' && style == PathStyle::Unix ==> r@ == root@ + seq!['/'] + "session-"@
            + session_id@,
{
    reveal_strlit("/");
    reveal_strlit("\\");
    assert("/"@ =~= seq!['/']);
    assert("\\"@ =~= seq!['\\']);
}

/// A window is found only where it shows, is not minimised, and belongs to a process
/// whose command line names the profile; and where there is such a window, one is.
pub proof fn law_own_windows_are_found(
    processes: Vec<ProcessInfo>,
    windows: Vec<WindowInfo>,
    profile: &str,
    r: Option<usize>,
)
    requires
        call_ensures(find_owned_visible_window, (&processes, &windows, profile), r),
    ensures
        r matches Some(i) ==> {
            let w = windows@[i as int];
            &&& i < windows@.len()
            &&& w.visible
            &&& !w.minimized
            &&& exists|k: int|
                0 <= k < processes@.len() && (#[trigger] processes@[k]).pid == w.process_id
                    && processes@[k].command_line is Some && owns(
                    processes@[k].command_line->0@,
                    profile@,
                )
        },
        forall|i: int, k: int|
            #![trigger windows@[i], processes@[k]]
            0 <= i < windows@.len() && 0 <= k < processes@.len() && windows@[i].visible
                && !windows@[i].minimized && processes@[k].pid == windows@[i].process_id
                && processes@[k].command_line is Some && owns(
                processes@[k].command_line->0@,
                profile@,
            ) ==> r is Some && r->0 <= i,
{
    if r is None {
        assert forall|k: int| 0 <= k < windows@.len() implies !owned_visible(
            processes@,
            profile@,
            #[trigger] windows@[k],
        ) by {}
    }
    assert forall|i: int, k: int|
        #![trigger windows@[i], processes@[k]]
        0 <= i < windows@.len() && 0 <= k < processes@.len() && windows@[i].visible
            && !windows@[i].minimized && processes@[k].pid == windows@[i].process_id
            && processes@[k].command_line is Some && owns(
            processes@[k].command_line->0@,
            profile@,
        ) implies r is Some && r->0 <= i by {
        assert(owner_pid(processes@, profile@, windows@[i].process_id));
        assert(owned_visible(processes@, profile@, windows@[i]));
        match r {
            Some(j) => {
                if i < j {
                    assert(!owned_visible(processes@, profile@, windows@[i]));
                }
            },
            None => {
                assert(!owned_visible(processes@, profile@, windows@[i]));
            },
        }
    }
}

} // verus!
