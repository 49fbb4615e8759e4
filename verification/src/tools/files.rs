//! File tools: reading text, finding files by name, and what takes up space.
//!
//! The library decides which path may be read and how much of it, whether a
//! name matches, and what a report says. Reading the disk is left to the
//! caller.

use crate::errors::{err_view, ErrorKind, ErrorView, WinkitError};
use crate::json::{Json, JsonView};
use crate::order::{is_stable_order, keys_view, stable_order};
use crate::permissions::Capability;
use crate::text::{
    byte_len, chars_of, concat2, concat3, lossy_text, lower_char, read_lossy, read_utf16, same,
    to_lower_char, trim, trimmed, utf16_text, utf8_len, views,
};
use crate::tools::args::{
    given_text, needed_text, optional_non_empty_string, optional_u32, optional_usize,
    required_string, u32_at, usize_at,
};
use crate::tools::schema::{input_schema, param_views, schema_view, Param, ParamKind, ParamView};
use crate::tools::toolset::{ToolDefinition, ToolView};
use vstd::prelude::*;
use vstd::string::*;

verus! {

/// The longest path of a file, in bytes.
pub const MAX_FILE_PATH_BYTES: usize = 4096;

/// How much of a file is read where no number is asked for, in bytes.
pub const DEFAULT_READ_BYTES: usize = 32768;

/// How much of a file is read at least, in bytes.
pub const MIN_READ_BYTES: usize = 64;

/// How much of a file is read at most, in bytes.
pub const MAX_READ_BYTES: usize = 262144;

/// How deep a search goes where no depth is asked for.
pub const DEFAULT_FIND_DEPTH: u32 = 6;

/// How deep a search goes at most.
pub const MAX_FIND_DEPTH: u32 = 12;

/// How many files a search gives where no number is asked for.
pub const DEFAULT_FIND_RESULTS: usize = 100;

/// How many files a search gives at most.
pub const MAX_FIND_RESULTS: usize = 500;

/// How many children an overview shows where no number is asked for.
pub const DEFAULT_CHILDREN: usize = 50;

/// How many children an overview shows at most.
pub const MAX_CHILDREN: usize = 500;

/// How many entries an overview walks through, over all children.
pub const MAX_DIR_WALK_ENTRIES: usize = 200_000;

/// How many entries of one child are walked through at least.
pub const MIN_CHILD_BUDGET: usize = 2000;

/// Which part of a file is read.
#[derive(Debug, Clone, Copy, PartialEq, Eq, Structural)]
pub enum ReadMode {
    Head,
    Tail,
    All,
}

impl ReadMode {
    /// The name of the mode.
    pub open spec fn name(self) -> Seq<char> {
        match self {
            ReadMode::Head => "head"@,
            ReadMode::Tail => "tail"@,
            ReadMode::All => "all"@,
        }
    }

    /// The name of the mode.
    pub fn as_str(self) -> (r: &'static str)
        ensures
            r@ == self.name(),
    {
        match self {
            ReadMode::Head => "head",
            ReadMode::Tail => "tail",
            ReadMode::All => "all",
        }
    }
}

/// What is to be read of a file.
#[derive(Debug)]
pub struct ReadPlan {
    pub path: String,
    pub mode: ReadMode,
    pub max_bytes: usize,
}

/// [`ReadPlan`] taken by its views.
pub struct ReadPlanView {
    pub path: Seq<char>,
    pub mode: ReadMode,
    pub max_bytes: usize,
}

impl View for ReadPlan {
    type V = ReadPlanView;

    open spec fn view(&self) -> ReadPlanView {
        ReadPlanView { path: self.path@, mode: self.mode, max_bytes: self.max_bytes }
    }
}

/// A number brought between two bounds.
pub open spec fn between(n: int, low: int, high: int) -> int {
    if n < low {
        low
    } else if n > high {
        high
    } else {
        n
    }
}

/// Which part of the file the arguments ask for.
pub open spec fn wanted_mode(args: JsonView) -> Result<ReadMode, ErrorView> {
    match given_text(args, "mode"@) {
        None => Ok(ReadMode::Head),
        Some(m) => if m == "head"@ {
            Ok(ReadMode::Head)
        } else if m == "tail"@ {
            Ok(ReadMode::Tail)
        } else if m == "all"@ {
            Ok(ReadMode::All)
        } else {
            Err(
                err_view(
                    ErrorKind::InvalidArgument,
                    "'mode' must be head, tail, or all (got '"@ + m + "')"@,
                ),
            )
        },
    }
}

/// How many bytes the arguments ask for.
pub open spec fn wanted_bytes(args: JsonView) -> usize {
    between(
        match usize_at(args, "max_bytes"@) {
            Some(n) => n as int,
            None => DEFAULT_READ_BYTES as int,
        },
        MIN_READ_BYTES as int,
        MAX_READ_BYTES as int,
    ) as usize
}

/// What the arguments ask to read.
pub open spec fn read_plan(args: JsonView) -> Result<ReadPlanView, ErrorView> {
    match needed_text(args, "path"@) {
        Err(e) => Err(e),
        Ok(path) => if utf8_len(path) > MAX_FILE_PATH_BYTES {
            Err(err_view(ErrorKind::PathRejected, "file path is too long"@))
        } else {
            match wanted_mode(args) {
                Err(e) => Err(e),
                Ok(mode) => Ok(ReadPlanView { path, mode, max_bytes: wanted_bytes(args) }),
            }
        },
    }
}

fn mode_from_args(args: &Json) -> (r: Result<ReadMode, WinkitError>)
    ensures
        crate::errors::res_view(r) == wanted_mode(args@),
{
    match optional_non_empty_string(args, "mode") {
        None => Ok(ReadMode::Head),
        Some(m) => {
            if same(&m, "head") {
                Ok(ReadMode::Head)
            } else if same(&m, "tail") {
                Ok(ReadMode::Tail)
            } else if same(&m, "all") {
                Ok(ReadMode::All)
            } else {
                Err(
                    WinkitError::invalid_argument(
                        &concat3("'mode' must be head, tail, or all (got '", &m, "')"),
                    ),
                )
            }
        },
    }
}

/// What the arguments ask to read.
pub fn plan_read(args: &Json) -> (r: Result<ReadPlan, WinkitError>)
    ensures
        match r {
            Ok(p) => read_plan(args@) == Ok::<ReadPlanView, ErrorView>(p@),
            Err(e) => read_plan(args@) == Err::<ReadPlanView, ErrorView>(e@),
        },
{
    let path = match required_string(args, "path") {
        Ok(p) => p,
        Err(e) => {
            return Err(e);
        },
    };
    if byte_len(&path) > MAX_FILE_PATH_BYTES {
        return Err(WinkitError::path_rejected("file path is too long"));
    }
    let mode = match mode_from_args(args) {
        Ok(m) => m,
        Err(e) => {
            return Err(e);
        },
    };
    let asked: usize = match optional_usize(args, "max_bytes") {
        Some(n) => n,
        None => DEFAULT_READ_BYTES,
    };
    let max_bytes: usize = if asked < MIN_READ_BYTES {
        MIN_READ_BYTES
    } else if asked > MAX_READ_BYTES {
        MAX_READ_BYTES
    } else {
        asked
    };
    Ok(ReadPlan { path, mode, max_bytes })
}

/// Is the path the root or under it? Both are given by their components.
pub open spec fn is_under(path: Seq<Seq<char>>, root: Seq<Seq<char>>) -> bool {
    root.len() <= path.len() && path.take(root.len() as int) == root
}

/// Is the path the root or under it?
pub fn path_is_under(path: &Vec<String>, root: &Vec<String>) -> (r: bool)
    ensures
        r == is_under(views(path@), views(root@)),
{
    if root.len() > path.len() {
        return false;
    }
    let mut i: usize = 0;
    while i < root.len()
        invariant
            root@.len() <= path@.len(),
            i <= root@.len(),
            forall|k: int| 0 <= k < i ==> (#[trigger] path@[k])@ == root@[k]@,
        decreases root@.len() - i,
    {
        if !same(&path[i], &root[i]) {
            proof {
                let p = views(path@).take(root@.len() as int);
                assert(p[i as int] == path@[i as int]@);
                assert(views(root@)[i as int] == root@[i as int]@);
            }
            return false;
        }
        i = i + 1;
    }
    assert(views(path@).take(root@.len() as int) =~= views(root@));
    true
}

/// A configured root: its components, where it can be resolved.
pub type Root = Option<Vec<String>>;

/// Is the path under one of the roots? A root that cannot be resolved holds
/// nothing.
pub open spec fn under_any(path: Seq<Seq<char>>, roots: Seq<Root>) -> bool {
    exists|i: int|
        0 <= i < roots.len() && (#[trigger] roots[i] matches Some(r) && is_under(path, views(r@)))
}

fn is_under_any(path: &Vec<String>, roots: &Vec<Root>) -> (r: bool)
    ensures
        r == under_any(views(path@), roots@),
{
    let mut i: usize = 0;
    while i < roots.len()
        invariant
            i <= roots@.len(),
            forall|k: int|
                0 <= k < i ==> !(#[trigger] roots@[k] matches Some(r) && is_under(
                    views(path@),
                    views(r@),
                )),
        decreases roots@.len() - i,
    {
        match &roots[i] {
            Some(root) => {
                if path_is_under(path, root) {
                    assert(roots@[i as int] matches Some(r) && is_under(views(path@), views(r@)));
                    return true;
                }
            },
            None => {},
        }
        i = i + 1;
    }
    false
}

/// What the disk says of a path.
#[derive(Debug)]
pub struct FileFacts {
    /// Does the path start at a root of the file system?
    pub absolute: bool,
    /// The components of the resolved path, where it can be resolved.
    pub resolved: Option<Vec<String>>,
    /// Is the resolved path of the kind that is wanted: a regular file, or a
    /// directory?
    pub regular: bool,
}

/// May the file be read? Its path is absolute and resolves to a regular file
/// that stands under no denied root and, where roots are allowed by name,
/// under one of them.
pub open spec fn file_policy(
    raw: Seq<char>,
    facts: FileFacts,
    allow: Seq<Root>,
    deny: Seq<Root>,
) -> Result<(), ErrorView> {
    if trimmed(raw).len() == 0 {
        Err(err_view(ErrorKind::PathRejected, "file path is empty"@))
    } else if !facts.absolute {
        Err(
            err_view(
                ErrorKind::PathRejected,
                "file path must be absolute (e.g. D:\\logs\\app.log)"@,
            ),
        )
    } else {
        match facts.resolved {
            None => Err(
                err_view(
                    ErrorKind::NotFound,
                    "file '"@ + trimmed(raw) + "' does not exist or cannot be resolved"@,
                ),
            ),
            Some(path) => if !facts.regular {
                Err(
                    err_view(
                        ErrorKind::InvalidArgument,
                        "'"@ + trimmed(raw) + "' is not a regular file"@,
                    ),
                )
            } else if under_any(views(path@), deny) {
                Err(
                    err_view(
                        ErrorKind::PathRejected,
                        "file '"@ + trimmed(raw)
                            + "' is under a configured workspaces.deny_roots entry"@,
                    ),
                )
            } else if allow.len() > 0 && !under_any(views(path@), allow) {
                Err(
                    err_view(
                        ErrorKind::PathRejected,
                        "file '"@ + trimmed(raw)
                            + "' is outside the configured workspaces.allow_roots"@,
                    ),
                )
            } else {
                Ok(())
            },
        }
    }
}

/// May the file be read?
pub fn check_file(raw: &str, facts: &FileFacts, allow: &Vec<Root>, deny: &Vec<Root>) -> (r: Result<
    (),
    WinkitError,
>)
    ensures
        crate::errors::res_view(r) == file_policy(raw@, *facts, allow@, deny@),
{
    let name = trim(raw);
    if name.as_str().is_empty() {
        return Err(WinkitError::path_rejected("file path is empty"));
    }
    if !facts.absolute {
        return Err(
            WinkitError::path_rejected("file path must be absolute (e.g. D:\\logs\\app.log)"),
        );
    }
    match &facts.resolved {
        None => Err(
            WinkitError::not_found(
                &concat3("file '", &name, "' does not exist or cannot be resolved"),
            ),
        ),
        Some(path) => {
            if !facts.regular {
                return Err(
                    WinkitError::invalid_argument(&concat3("'", &name, "' is not a regular file")),
                );
            }
            if is_under_any(path, deny) {
                return Err(
                    WinkitError::path_rejected(
                        &concat3(
                            "file '",
                            &name,
                            "' is under a configured workspaces.deny_roots entry",
                        ),
                    ),
                );
            }
            if allow.len() > 0 && !is_under_any(path, allow) {
                return Err(
                    WinkitError::path_rejected(
                        &concat3(
                            "file '",
                            &name,
                            "' is outside the configured workspaces.allow_roots",
                        ),
                    ),
                );
            }
            Ok(())
        },
    }
}

/// A file under a denied root is never read, whatever is allowed; and where
/// roots are allowed by name, no file outside them is.
pub proof fn law_denied_is_denied(
    raw: Seq<char>,
    facts: FileFacts,
    allow: Seq<Root>,
    deny: Seq<Root>,
)
    requires
        file_policy(raw, facts, allow, deny) is Ok,
    ensures
        facts.absolute && facts.regular && facts.resolved is Some,
        !under_any(views(facts.resolved->0@), deny),
        allow.len() > 0 ==> under_any(views(facts.resolved->0@), allow),
{
}

/// Why a directory may not be walked through, or nothing where it may: its path
/// is absolute and resolves to a directory that stands under no denied root and,
/// where roots are allowed by name, under one of them. `what` says what the
/// directory is to the caller.
pub open spec fn directory_refusal(
    what: Seq<char>,
    raw: Seq<char>,
    facts: FileFacts,
    allow: Seq<Root>,
    deny: Seq<Root>,
) -> Option<Seq<char>> {
    let named = what + (" '"@ + trimmed(raw) + "'"@);
    if trimmed(raw).len() == 0 {
        Some(what + " is empty"@)
    } else if !facts.absolute {
        Some(named + " must be absolute"@)
    } else if facts.resolved is None {
        Some(named + " does not exist or cannot be resolved"@)
    } else if !facts.regular {
        Some(named + " is not a directory"@)
    } else if under_any(views(facts.resolved->0@), deny) {
        Some(named + " is under a configured workspaces.deny_roots entry"@)
    } else if allow.len() > 0 && !under_any(views(facts.resolved->0@), allow) {
        Some(named + " is outside the configured workspaces.allow_roots"@)
    } else {
        None
    }
}

/// May the directory be walked through? Every refusal is one of the path.
pub fn check_directory(
    what: &str,
    raw: &str,
    facts: &FileFacts,
    allow: &Vec<Root>,
    deny: &Vec<Root>,
) -> (r: Result<(), WinkitError>)
    ensures
        match directory_refusal(what@, raw@, *facts, allow@, deny@) {
            None => r is Ok,
            Some(words) => r matches Err(e) && e@ == err_view(ErrorKind::PathRejected, words),
        },
{
    let name = trim(raw);
    if name.as_str().is_empty() {
        return Err(WinkitError::path_rejected(&concat2(what, " is empty")));
    }
    let named = concat2(what, &concat3(" '", &name, "'"));
    if !facts.absolute {
        return Err(WinkitError::path_rejected(&concat2(&named, " must be absolute")));
    }
    match &facts.resolved {
        None => Err(
            WinkitError::path_rejected(
                &concat2(&named, " does not exist or cannot be resolved"),
            ),
        ),
        Some(path) => {
            if !facts.regular {
                return Err(WinkitError::path_rejected(&concat2(&named, " is not a directory")));
            }
            if is_under_any(path, deny) {
                return Err(
                    WinkitError::path_rejected(
                        &concat2(&named, " is under a configured workspaces.deny_roots entry"),
                    ),
                );
            }
            if allow.len() > 0 && !is_under_any(path, allow) {
                return Err(
                    WinkitError::path_rejected(
                        &concat2(&named, " is outside the configured workspaces.allow_roots"),
                    ),
                );
            }
            Ok(())
        },
    }
}

/// A directory under a denied root is never walked through, whatever is allowed;
/// and where roots are allowed by name, no directory outside them is.
pub proof fn law_denied_directories_stay_closed(
    what: Seq<char>,
    raw: Seq<char>,
    facts: FileFacts,
    allow: Seq<Root>,
    deny: Seq<Root>,
)
    requires
        directory_refusal(what, raw, facts, allow, deny) is None,
    ensures
        facts.absolute && facts.regular && facts.resolved is Some,
        !under_any(views(facts.resolved->0@), deny),
        allow.len() > 0 ==> under_any(views(facts.resolved->0@), allow),
{
}

/// Where a file of `total` bytes is read from, and how many bytes.
pub open spec fn read_window(mode: ReadMode, total: u64, max_bytes: usize) -> (u64, usize) {
    let n = if total < max_bytes {
        total as usize
    } else {
        max_bytes
    };
    match mode {
        ReadMode::Tail => ((total - n) as u64, n),
        _ => (0, n),
    }
}

/// Where a file of `total` bytes is read from, and how many bytes.
pub fn window_of(mode: ReadMode, total: u64, max_bytes: usize) -> (r: (u64, usize))
    ensures
        r == read_window(mode, total, max_bytes),
        r.0 + r.1 <= total,
        r.1 <= max_bytes,
{
    let n: usize = if total < max_bytes as u64 {
        total as usize
    } else {
        max_bytes
    };
    match mode {
        ReadMode::Tail => (total - n as u64, n),
        _ => (0, n),
    }
}

/// Where the first line after a cut begins: behind the first line break, or at
/// the end where there is none.
pub open spec fn line_start(bytes: Seq<u8>) -> int
    decreases bytes.len(),
{
    if bytes.len() == 0 {
        0
    } else if bytes[0] == 10 {
        1
    } else {
        1 + line_start(bytes.drop_first())
    }
}

/// Where the first line after a cut begins.
pub fn first_line_start(bytes: &Vec<u8>) -> (r: usize)
    ensures
        r == line_start(bytes@),
        r <= bytes@.len(),
{
    let mut i: usize = 0;
    assert(bytes@.skip(0) =~= bytes@);
    while i < bytes.len()
        invariant
            i <= bytes@.len(),
            line_start(bytes@) == i + line_start(bytes@.skip(i as int)),
        decreases bytes@.len() - i,
    {
        assert(bytes@.skip(i as int).drop_first() =~= bytes@.skip(i + 1));
        if bytes[i] == 10 {
            return i + 1;
        }
        i = i + 1;
    }
    i
}

/// The bytes of UTF-16 as units, the low byte of each first; a byte left over at
/// the end is no unit.
pub open spec fn units_low_first(bytes: Seq<u8>) -> Seq<u16> {
    Seq::new(
        (bytes.len() / 2) as nat,
        |i: int| (bytes[2 * i] as int + 256 * (bytes[2 * i + 1] as int)) as u16,
    )
}

/// The bytes of UTF-16 as units, the high byte of each first.
pub open spec fn units_high_first(bytes: Seq<u8>) -> Seq<u16> {
    Seq::new(
        (bytes.len() / 2) as nat,
        |i: int| (256 * (bytes[2 * i] as int) + bytes[2 * i + 1] as int) as u16,
    )
}

fn units_of(bytes: &Vec<u8>, low_first: bool) -> (r: Vec<u16>)
    ensures
        r@ == (if low_first {
            units_low_first(bytes@)
        } else {
            units_high_first(bytes@)
        }),
{
    let total: usize = bytes.len();
    let n: usize = total / 2;
    let mut out: Vec<u16> = Vec::new();
    let mut i: usize = 0;
    while i < n
        invariant
            i <= n,
            total == bytes@.len(),
            n == total / 2,
            out@.len() == i,
            low_first ==> forall|k: int|
                0 <= k < i ==> (#[trigger] out@[k]) == units_low_first(bytes@)[k],
            !low_first ==> forall|k: int|
                0 <= k < i ==> (#[trigger] out@[k]) == units_high_first(bytes@)[k],
        decreases n - i,
    {
        let a: u16 = bytes[2 * i] as u16;
        let b: u16 = bytes[2 * i + 1] as u16;
        if low_first {
            out.push(a + 256 * b);
        } else {
            out.push(256 * a + b);
        }
        i = i + 1;
    }
    assert(low_first ==> out@ =~= units_low_first(bytes@));
    assert(!low_first ==> out@ =~= units_high_first(bytes@));
    out
}

/// The bytes from `from` on.
fn bytes_from(bytes: &Vec<u8>, from: usize) -> (r: Vec<u8>)
    requires
        from <= bytes@.len(),
    ensures
        r@ == bytes@.skip(from as int),
{
    let mut out: Vec<u8> = Vec::new();
    let mut i: usize = from;
    while i < bytes.len()
        invariant
            from <= i <= bytes@.len(),
            out@ == bytes@.subrange(from as int, i as int),
        decreases bytes@.len() - i,
    {
        out.push(bytes[i]);
        i = i + 1;
        assert(bytes@.subrange(from as int, i as int) =~= bytes@.subrange(
            from as int,
            i - 1,
        ).push(bytes@[i - 1]));
    }
    assert(out@ =~= bytes@.skip(from as int));
    out
}

/// The encoding and the text of bytes: UTF-16 and UTF-8 by their marks, else
/// UTF-8. Bytes without a mark that hold a zero are no text.
pub open spec fn decoded(bytes: Seq<u8>) -> Option<(Seq<char>, Seq<char>)> {
    if bytes.len() >= 2 && bytes[0] == 0xFF && bytes[1] == 0xFE {
        Some(("utf-16le"@, utf16_text(units_low_first(bytes.skip(2)))))
    } else if bytes.len() >= 2 && bytes[0] == 0xFE && bytes[1] == 0xFF {
        Some(("utf-16be"@, utf16_text(units_high_first(bytes.skip(2)))))
    } else if bytes.len() >= 3 && bytes[0] == 0xEF && bytes[1] == 0xBB && bytes[2] == 0xBF {
        Some(("utf-8"@, lossy_text(bytes.skip(3))))
    } else if bytes.contains(0u8) {
        None
    } else {
        Some(("utf-8"@, lossy_text(bytes)))
    }
}

fn holds_zero(bytes: &Vec<u8>) -> (r: bool)
    ensures
        r == bytes@.contains(0u8),
{
    let mut i: usize = 0;
    while i < bytes.len()
        invariant
            i <= bytes@.len(),
            forall|k: int| 0 <= k < i ==> bytes@[k] != 0,
        decreases bytes@.len() - i,
    {
        if bytes[i] == 0 {
            assert(bytes@[i as int] == 0);
            return true;
        }
        i = i + 1;
    }
    false
}

/// The encoding and the text of bytes. Binary content is refused.
pub fn decode_text(bytes: &Vec<u8>) -> (r: Result<(&'static str, String), WinkitError>)
    ensures
        match (decoded(bytes@), r) {
            (Some(d), Ok(t)) => t.0@ == d.0 && t.1@ == d.1,
            (None, Err(e)) => e@ == err_view(
                ErrorKind::InvalidArgument,
                "the file looks binary and is not read"@,
            ),
            _ => false,
        },
{
    let n: usize = bytes.len();
    if n >= 2 && bytes[0] == 0xFF && bytes[1] == 0xFE {
        let units = units_of(&bytes_from(bytes, 2), true);
        Ok(("utf-16le", read_utf16(&units)))
    } else if n >= 2 && bytes[0] == 0xFE && bytes[1] == 0xFF {
        let units = units_of(&bytes_from(bytes, 2), false);
        Ok(("utf-16be", read_utf16(&units)))
    } else if n >= 3 && bytes[0] == 0xEF && bytes[1] == 0xBB && bytes[2] == 0xBF {
        Ok(("utf-8", read_lossy(&bytes_from(bytes, 3))))
    } else if holds_zero(bytes) {
        Err(WinkitError::invalid_argument("the file looks binary and is not read"))
    } else {
        Ok(("utf-8", read_lossy(bytes)))
    }
}

/// What was read of a file.
#[derive(Debug)]
pub struct TextSlice {
    pub encoding: &'static str,
    pub content: String,
    pub total_bytes: u64,
    pub returned_bytes: usize,
    pub truncated: bool,
}

/// The bytes of a window that are shown: the end of a file from its first whole
/// line on, all of them else.
pub open spec fn shown_bytes(mode: ReadMode, offset: u64, bytes: Seq<u8>) -> Seq<u8> {
    if mode == ReadMode::Tail && offset > 0 {
        bytes.skip(line_start(bytes))
    } else {
        bytes
    }
}

/// What is told of the bytes that were read at an offset of a file.
pub fn text_slice(mode: ReadMode, offset: u64, total_bytes: u64, bytes: &Vec<u8>) -> (r: Result<
    TextSlice,
    WinkitError,
>)
    ensures
        ({
            let kept = shown_bytes(mode, offset, bytes@);
            match (decoded(kept), r) {
                (Some(d), Ok(t)) => {
                    &&& t.encoding@ == d.0
                    &&& t.content@ == d.1
                    &&& t.total_bytes == total_bytes
                    &&& t.returned_bytes == kept.len()
                    &&& t.truncated == (kept.len() < total_bytes)
                },
                (None, Err(e)) => e@ == err_view(
                    ErrorKind::InvalidArgument,
                    "the file looks binary and is not read"@,
                ),
                _ => false,
            }
        }),
{
    let from: usize = match mode {
        ReadMode::Tail => if offset > 0 {
            first_line_start(bytes)
        } else {
            0
        },
        _ => 0,
    };
    let kept = bytes_from(bytes, from);
    assert(kept@ =~= shown_bytes(mode, offset, bytes@));
    match decode_text(&kept) {
        Ok((encoding, content)) => Ok(
            TextSlice {
                encoding,
                content,
                total_bytes,
                returned_bytes: kept.len(),
                truncated: (kept.len() as u64) < total_bytes,
            },
        ),
        Err(e) => Err(e),
    }
}

/// Does a file name match a pattern? A `*` stands for any characters, a `?`
/// for one; letters match in either case.
pub open spec fn name_matches(pattern: Seq<char>, name: Seq<char>) -> bool
    decreases pattern.len() + name.len(),
{
    if pattern.len() == 0 {
        name.len() == 0
    } else if pattern[0] == '*' {
        name_matches(pattern.drop_first(), name) || (name.len() > 0 && name_matches(
            pattern,
            name.drop_first(),
        ))
    } else {
        name.len() > 0 && (pattern[0] == '?' || lower_char(pattern[0]) == lower_char(name[0]))
            && name_matches(pattern.drop_first(), name.drop_first())
    }
}

/// From what the rest of the pattern matches to what the pattern from `p` on
/// matches: for every tail of the name, and for its empty end.
fn match_step(pattern: &Vec<char>, name: &Vec<char>, p: usize, rows: Vec<bool>, end: bool) -> (r: (
    Vec<bool>,
    bool,
))
    requires
        p < pattern@.len(),
        rows@.len() == name@.len(),
        forall|j: int|
            0 <= j < name@.len() ==> #[trigger] rows@[j] == name_matches(
                pattern@.skip(p + 1),
                name@.skip(j),
            ),
        end == name_matches(pattern@.skip(p + 1), name@.skip(name@.len() as int)),
    ensures
        r.0@.len() == name@.len(),
        forall|j: int|
            0 <= j < name@.len() ==> #[trigger] r.0@[j] == name_matches(
                pattern@.skip(p as int),
                name@.skip(j),
            ),
        r.1 == name_matches(pattern@.skip(p as int), name@.skip(name@.len() as int)),
{
    let n: usize = name.len();
    let ghost here = pattern@.skip(p as int);
    let ghost next = pattern@.skip(p + 1);
    assert(here.drop_first() =~= next);
    assert(here[0] == pattern@[p as int]);
    let at_end = pattern[p] == '*' && end;
    let mut out = rows;
    let mut j: usize = n;
    let mut diagonal = end;
    let mut right = at_end;
    while j > 0
        invariant
            n == name@.len(),
            j <= n,
            p < pattern@.len(),
            here == pattern@.skip(p as int),
            next == pattern@.skip(p + 1),
            here.drop_first() == next,
            here.len() > 0,
            here[0] == pattern@[p as int],
            out@.len() == n,
            forall|i: int| 0 <= i < j ==> #[trigger] out@[i] == name_matches(next, name@.skip(i)),
            forall|i: int| j <= i < n ==> #[trigger] out@[i] == name_matches(here, name@.skip(i)),
            right == name_matches(here, name@.skip(j as int)),
            diagonal == name_matches(next, name@.skip(j as int)),
        decreases j,
    {
        let ghost after = name@.skip(j as int);
        j = j - 1;
        let ghost rest = name@.skip(j as int);
        assert(rest.drop_first() =~= after);
        assert(rest[0] == name@[j as int]);
        let old_row = out[j];
        let here_matches = if pattern[p] == '*' {
            old_row || right
        } else {
            (pattern[p] == '?' || to_lower_char(pattern[p]) == to_lower_char(name[j])) && diagonal
        };
        out.set(j, here_matches);
        right = here_matches;
        diagonal = old_row;
    }
    (out, at_end)
}

/// Does a file name match a pattern?
pub fn matches_name(pattern: &str, name: &str) -> (r: bool)
    ensures
        r == name_matches(pattern@, name@),
{
    let p = chars_of(pattern);
    let v = chars_of(name);
    let n: usize = v.len();
    let mut rows: Vec<bool> = Vec::new();
    let mut end = true;
    let mut i: usize = 0;
    let mut k: usize = p.len();
    let ghost none = p@.skip(p@.len() as int);
    while i < n
        invariant
            n == v@.len(),
            i <= n,
            none.len() == 0,
            rows@.len() == i,
            forall|j: int| 0 <= j < i ==> #[trigger] rows@[j] == name_matches(none, v@.skip(j)),
        decreases n - i,
    {
        rows.push(false);
        i = i + 1;
    }
    while k > 0
        invariant
            n == v@.len(),
            k <= p@.len(),
            rows@.len() == n,
            forall|j: int|
                0 <= j < n ==> #[trigger] rows@[j] == name_matches(p@.skip(k as int), v@.skip(j)),
            end == name_matches(p@.skip(k as int), v@.skip(n as int)),
        decreases k,
    {
        let (next_rows, next_end) = match_step(&p, &v, k - 1, rows, end);
        rows = next_rows;
        end = next_end;
        k = k - 1;
    }
    assert(p@.skip(0) =~= pattern@);
    assert(v@.skip(0) =~= name@);
    if n == 0 {
        end
    } else {
        rows[0]
    }
}

/// A lone star matches every name.
pub proof fn law_star_matches_all(name: Seq<char>)
    ensures
        name_matches(seq!['*'], name),
    decreases name.len(),
{
    let star = seq!['*'];
    assert(star.drop_first() =~= Seq::<char>::empty());
    if name.len() > 0 {
        law_star_matches_all(name.drop_first());
    } else {
        assert(name_matches(star.drop_first(), name));
    }
}

/// A name without wildcards matches itself.
pub proof fn law_name_matches_itself(name: Seq<char>)
    requires
        forall|i: int| 0 <= i < name.len() ==> #[trigger] name[i] != '*',
    ensures
        name_matches(name, name),
    decreases name.len(),
{
    if name.len() > 0 {
        let rest = name.drop_first();
        assert forall|i: int| 0 <= i < rest.len() implies #[trigger] rest[i] != '*' by {
            assert(rest[i] == name[i + 1]);
        }
        law_name_matches_itself(rest);
    }
}

/// What is searched for.
#[derive(Debug)]
pub struct FindPlan {
    pub root: String,
    pub pattern: String,
    pub max_depth: u32,
    pub max_results: usize,
}

/// [`FindPlan`] taken by its views.
pub struct FindPlanView {
    pub root: Seq<char>,
    pub pattern: Seq<char>,
    pub max_depth: u32,
    pub max_results: usize,
}

impl View for FindPlan {
    type V = FindPlanView;

    open spec fn view(&self) -> FindPlanView {
        FindPlanView {
            root: self.root@,
            pattern: self.pattern@,
            max_depth: self.max_depth,
            max_results: self.max_results,
        }
    }
}

/// How deep the arguments ask to search.
pub open spec fn wanted_depth(args: JsonView) -> u32 {
    between(
        match u32_at(args, "max_depth"@) {
            Some(d) => d as int,
            None => DEFAULT_FIND_DEPTH as int,
        },
        0,
        MAX_FIND_DEPTH as int,
    ) as u32
}

/// How many files the arguments ask for.
pub open spec fn wanted_results(args: JsonView) -> usize {
    between(
        match usize_at(args, "max_results"@) {
            Some(n) => n as int,
            None => DEFAULT_FIND_RESULTS as int,
        },
        1,
        MAX_FIND_RESULTS as int,
    ) as usize
}

/// What the arguments ask to search for. A pattern is one of file names: it
/// holds no path separator.
pub open spec fn find_plan(args: JsonView) -> Result<FindPlanView, ErrorView> {
    match needed_text(args, "root"@) {
        Err(e) => Err(e),
        Ok(root) => match needed_text(args, "pattern"@) {
            Err(e) => Err(e),
            Ok(pattern) => if pattern.contains('/') || pattern.contains('\\') {
                Err(
                    err_view(
                        ErrorKind::InvalidArgument,
                        "'pattern' matches file names only and must not contain path separators"@,
                    ),
                )
            } else {
                Ok(
                    FindPlanView {
                        root,
                        pattern,
                        max_depth: wanted_depth(args),
                        max_results: wanted_results(args),
                    },
                )
            },
        },
    }
}

fn has_separator(s: &str) -> (r: bool)
    ensures
        r == (s@.contains('/') || s@.contains('\\')),
{
    let v = chars_of(s);
    let mut i: usize = 0;
    while i < v.len()
        invariant
            v@ == s@,
            i <= v@.len(),
            forall|k: int| 0 <= k < i ==> #[trigger] s@[k] != '/' && s@[k] != '\\',
        decreases v@.len() - i,
    {
        if v[i] == '/' || v[i] == '\\' {
            assert(s@[i as int] == v@[i as int]);
            return true;
        }
        i = i + 1;
    }
    false
}

/// What the arguments ask to search for.
pub fn plan_find(args: &Json) -> (r: Result<FindPlan, WinkitError>)
    ensures
        match r {
            Ok(p) => find_plan(args@) == Ok::<FindPlanView, ErrorView>(p@),
            Err(e) => find_plan(args@) == Err::<FindPlanView, ErrorView>(e@),
        },
{
    let root = match required_string(args, "root") {
        Ok(s) => s,
        Err(e) => {
            return Err(e);
        },
    };
    let pattern = match required_string(args, "pattern") {
        Ok(s) => s,
        Err(e) => {
            return Err(e);
        },
    };
    if has_separator(&pattern) {
        return Err(
            WinkitError::invalid_argument(
                "'pattern' matches file names only and must not contain path separators",
            ),
        );
    }
    let depth: u32 = match optional_u32(args, "max_depth") {
        Some(d) => d,
        None => DEFAULT_FIND_DEPTH,
    };
    let results: usize = match optional_usize(args, "max_results") {
        Some(n) => n,
        None => DEFAULT_FIND_RESULTS,
    };
    let max_depth: u32 = if depth > MAX_FIND_DEPTH {
        MAX_FIND_DEPTH
    } else {
        depth
    };
    let max_results: usize = if results < 1 {
        1
    } else if results > MAX_FIND_RESULTS {
        MAX_FIND_RESULTS
    } else {
        results
    };
    Ok(FindPlan { root, pattern, max_depth, max_results })
}

/// How many children the arguments ask for.
pub open spec fn wanted_children(args: JsonView) -> usize {
    between(
        match usize_at(args, "max_children"@) {
            Some(n) => n as int,
            None => DEFAULT_CHILDREN as int,
        },
        1,
        MAX_CHILDREN as int,
    ) as usize
}

/// The directory of an overview, and how many children it shows.
pub fn plan_overview(args: &Json) -> (r: Result<(String, usize), WinkitError>)
    ensures
        match r {
            Ok(p) => needed_text(args@, "path"@) == Ok::<Seq<char>, ErrorView>(p.0@) && p.1
                == wanted_children(args@),
            Err(e) => needed_text(args@, "path"@) == Err::<Seq<char>, ErrorView>(e@),
        },
{
    let path = match required_string(args, "path") {
        Ok(p) => p,
        Err(e) => {
            return Err(e);
        },
    };
    let asked: usize = match optional_usize(args, "max_children") {
        Some(n) => n,
        None => DEFAULT_CHILDREN,
    };
    let max_children: usize = if asked < 1 {
        1
    } else if asked > MAX_CHILDREN {
        MAX_CHILDREN
    } else {
        asked
    };
    Ok((path, max_children))
}

/// How much stands below one child of a directory.
#[derive(Debug)]
pub struct TreeStats {
    pub path: String,
    pub size_bytes: u64,
    pub files: usize,
    pub dirs: usize,
    pub truncated: bool,
}

/// How many entries of each child are walked through.
pub open spec fn child_budget(children: usize) -> usize {
    let share = (MAX_DIR_WALK_ENTRIES as int / (if children < 1 {
        1int
    } else {
        children as int
    }));
    if share < MIN_CHILD_BUDGET {
        MIN_CHILD_BUDGET
    } else {
        share as usize
    }
}

/// The bytes below all children.
pub open spec fn bytes_below(stats: Seq<TreeStats>) -> int
    decreases stats.len(),
{
    if stats.len() == 0 {
        0
    } else {
        bytes_below(stats.drop_last()) + stats.last().size_bytes
    }
}

/// The files below all children.
pub open spec fn files_below(stats: Seq<TreeStats>) -> int
    decreases stats.len(),
{
    if stats.len() == 0 {
        0
    } else {
        files_below(stats.drop_last()) + stats.last().files
    }
}

proof fn lemma_below_grows(stats: Seq<TreeStats>, n: int)
    requires
        0 <= n <= stats.len(),
    ensures
        0 <= bytes_below(stats.take(n)) <= bytes_below(stats),
        0 <= files_below(stats.take(n)) <= files_below(stats),
    decreases stats.len(),
{
    if stats.len() == 0 {
        assert(stats.take(n) =~= stats);
    } else if n == stats.len() {
        assert(stats.take(n) =~= stats);
        lemma_below_grows(stats.drop_last(), stats.len() - 1);
        assert(stats.drop_last().take(stats.len() - 1) =~= stats.drop_last());
    } else {
        lemma_below_grows(stats.drop_last(), n);
        assert(stats.drop_last().take(n) =~= stats.take(n));
    }
}

/// The walk over the children of a directory. Each directory gets its own share
/// of the budget, so that one huge tree cannot starve the rest.
#[derive(Debug)]
pub struct OverviewWalk {
    budget: usize,
    stats: Vec<TreeStats>,
    cut: bool,
}

impl OverviewWalk {
    /// How many entries of each directory are walked through.
    pub closed spec fn share(&self) -> usize {
        self.budget
    }

    /// What was found so far, in the order of the walk.
    pub closed spec fn found(&self) -> Seq<TreeStats> {
        self.stats@
    }

    /// Was a child not walked through to its end?
    pub closed spec fn was_cut(&self) -> bool {
        self.cut
    }

    /// A walk over so many children.
    pub fn new(children: usize) -> (r: Self)
        ensures
            r.share() == child_budget(children),
            r.found().len() == 0,
            !r.was_cut(),
    {
        let n: usize = if children < 1 {
            1
        } else {
            children
        };
        let share: usize = MAX_DIR_WALK_ENTRIES / n;
        let budget: usize = if share < MIN_CHILD_BUDGET {
            MIN_CHILD_BUDGET
        } else {
            share
        };
        OverviewWalk { budget, stats: Vec::new(), cut: false }
    }

    /// How many entries of the next directory are walked through.
    pub fn next_budget(&self) -> (r: usize)
        ensures
            r == self.share(),
    {
        self.budget
    }

    /// Notes a directory.
    pub fn add_dir(&mut self, stats: TreeStats)
        ensures
            final(self).found() == old(self).found().push(stats),
            final(self).was_cut() == (old(self).was_cut() || stats.truncated),
            final(self).share() == old(self).share(),
    {
        if stats.truncated {
            self.cut = true;
        }
        self.stats.push(stats);
    }

    /// Notes a file.
    pub fn add_file(&mut self, path: String, size_bytes: u64)
        ensures
            final(self).found().len() == old(self).found().len() + 1,
            final(self).found().drop_last() == old(self).found(),
            final(self).found().last().path@ == path@,
            final(self).found().last().size_bytes == size_bytes,
            final(self).found().last().files == 1,
            final(self).found().last().dirs == 0,
            !final(self).found().last().truncated,
            final(self).was_cut() == old(self).was_cut(),
            final(self).share() == old(self).share(),
    {
        let ghost before = self.stats@;
        self.stats.push(
            TreeStats { path, size_bytes, files: 1, dirs: 0, truncated: false },
        );
        assert(self.stats@.drop_last() =~= before);
    }

    /// The overview of what was found.
    pub fn finish(self, max_children: usize) -> (r: Overview)
        requires
            bytes_below(self.found()) <= u64::MAX,
            files_below(self.found()) <= usize::MAX,
        ensures
            shows_children(r, self.found(), self.was_cut(), max_children),
    {
        overview(self.stats, self.cut, max_children)
    }
}

/// What takes up space in a directory.
#[derive(Debug)]
pub struct Overview {
    pub total_size_bytes: u64,
    pub total_files: usize,
    pub children_shown: usize,
    pub children_truncated: bool,
    pub children: Vec<TreeStats>,
}

/// The keys by which larger children come first.
pub open spec fn size_keys(stats: Seq<TreeStats>) -> Seq<Seq<u64>> {
    stats.map_values(|s: TreeStats| seq![(u64::MAX - s.size_bytes) as u64])
}

/// Do two entries say the same?
pub open spec fn same_stats(a: TreeStats, b: TreeStats) -> bool {
    a.path@ == b.path@ && a.size_bytes == b.size_bytes && a.files == b.files && a.dirs == b.dirs
        && a.truncated == b.truncated
}

/// Are the children those found, the largest first, equals as they stood, cut
/// off behind `shown`?
pub open spec fn largest_first(
    children: Seq<TreeStats>,
    found: Seq<TreeStats>,
    shown: int,
) -> bool {
    exists|order: Seq<usize>| #[trigger]
        is_stable_order(size_keys(found), order) && follows(children, found, order, shown)
}

/// Are the children those that `order` picks, cut off behind `shown`?
pub open spec fn follows(
    children: Seq<TreeStats>,
    found: Seq<TreeStats>,
    order: Seq<usize>,
    shown: int,
) -> bool {
    &&& children.len() == shown
    &&& forall|i: int|
        0 <= i < shown ==> same_stats(#[trigger] children[i], found[order[i] as int])
}

/// Is the overview one of what was found?
pub open spec fn shows_children(
    r: Overview,
    found: Seq<TreeStats>,
    cut: bool,
    max_children: usize,
) -> bool {
    let shown = if found.len() < max_children {
        found.len() as int
    } else {
        max_children as int
    };
    &&& r.total_size_bytes == bytes_below(found)
    &&& r.total_files == files_below(found)
    &&& r.children_shown == shown
    &&& r.children_truncated == (cut || found.len() > shown)
    &&& largest_first(r.children@, found, shown)
}

/// The overview of what was found.
pub fn overview(stats: Vec<TreeStats>, cut: bool, max_children: usize) -> (r: Overview)
    requires
        bytes_below(stats@) <= u64::MAX,
        files_below(stats@) <= usize::MAX,
    ensures
        shows_children(r, stats@, cut, max_children),
{
    let mut keys: Vec<Vec<u64>> = Vec::new();
    let mut bytes: u64 = 0;
    let mut files: usize = 0;
    let mut i: usize = 0;
    assert(stats@.take(0).len() == 0);
    while i < stats.len()
        invariant
            i <= stats@.len(),
            keys@.len() == i,
            forall|k: int|
                0 <= k < i ==> (#[trigger] keys@[k])@ == seq![
                    (u64::MAX - stats@[k].size_bytes) as u64,
                ],
            bytes == bytes_below(stats@.take(i as int)),
            files == files_below(stats@.take(i as int)),
            bytes_below(stats@) <= u64::MAX,
            files_below(stats@) <= usize::MAX,
        decreases stats@.len() - i,
    {
        proof {
            lemma_below_grows(stats@, i + 1);
            assert(stats@.take(i + 1).drop_last() =~= stats@.take(i as int));
            assert(stats@.take(i + 1).last() == stats@[i as int]);
        }
        let first: u64 = u64::MAX - stats[i].size_bytes;
        let key: Vec<u64> = vec![first];
        assert(key@ =~= seq![first]);
        keys.push(key);
        bytes = bytes + stats[i].size_bytes;
        files = files + stats[i].files;
        i = i + 1;
    }
    assert(stats@.take(stats@.len() as int) =~= stats@);
    assert(keys_view(keys@) =~= size_keys(stats@));
    let order = stable_order(&keys);
    let total: usize = stats.len();
    let shown: usize = if total < max_children {
        total
    } else {
        max_children
    };
    let mut children: Vec<TreeStats> = Vec::new();
    let mut j: usize = 0;
    while j < shown
        invariant
            is_stable_order(size_keys(stats@), order@),
            order@.len() == stats@.len(),
            shown <= stats@.len(),
            j <= shown,
            children@.len() == j,
            forall|k: int|
                0 <= k < j ==> same_stats(#[trigger] children@[k], stats@[order@[k] as int]),
        decreases shown - j,
    {
        assert(order@[j as int] < size_keys(stats@).len());
        let s = &stats[order[j]];
        children.push(
            TreeStats {
                path: s.path.clone(),
                size_bytes: s.size_bytes,
                files: s.files,
                dirs: s.dirs,
                truncated: s.truncated,
            },
        );
        j = j + 1;
    }
    assert(follows(children@, stats@, order@, shown as int));
    Overview {
        total_size_bytes: bytes,
        total_files: files,
        children_shown: shown,
        children_truncated: cut || total > shown,
        children,
    }
}

/// Of the children shown the larger ones come first, and every child that is
/// left out is no larger than any that is shown.
pub proof fn law_largest_are_shown(children: Seq<TreeStats>, found: Seq<TreeStats>, shown: int)
    requires
        largest_first(children, found, shown),
        0 <= shown <= found.len() <= usize::MAX,
    ensures
        forall|i: int, j: int|
            0 <= i < j < shown ==> (#[trigger] children[i]).size_bytes >= (
            #[trigger] children[j]).size_bytes,
        forall|k: int|
            0 <= k < found.len() ==> is_shown(children, #[trigger] found[k]) || is_smallest(
                children,
                found[k],
            ),
{
    let keys = size_keys(found);
    let order = choose|order: Seq<usize>| #[trigger]
        is_stable_order(keys, order) && follows(children, found, order, shown);
    assert forall|i: int, j: int| 0 <= i < j < order.len() implies found[#[trigger] order[i] as int].size_bytes
        >= found[#[trigger] order[j] as int].size_bytes by {
        reveal_with_fuel(crate::order::key_lt, 2);
        let a = order[i] as int;
        let b = order[j] as int;
        assert(crate::order::comes_before(keys, a, b));
        assert(keys[a][0] == u64::MAX - found[a].size_bytes);
        assert(keys[b][0] == u64::MAX - found[b].size_bytes);
        assert(keys[a].drop_first().len() == 0);
    }
    assert forall|k: int| 0 <= k < found.len() implies is_shown(children, #[trigger] found[k])
        || is_smallest(children, found[k]) by {
        assert(order.contains(k as usize));
        let p = choose|p: int| 0 <= p < order.len() && order[p] == k as usize;
        if p < shown {
            assert(same_stats(children[p], found[k]));
        } else {
            assert forall|i: int| 0 <= i < children.len() implies (#[trigger] children[i]).size_bytes
                >= found[k].size_bytes by {
                assert(found[order[i] as int].size_bytes >= found[order[p] as int].size_bytes);
            }
        }
    }
}

/// Is the entry one of the children?
pub open spec fn is_shown(children: Seq<TreeStats>, s: TreeStats) -> bool {
    exists|i: int| 0 <= i < children.len() && same_stats(#[trigger] children[i], s)
}

/// Is every child at least as large as the entry?
pub open spec fn is_smallest(children: Seq<TreeStats>, s: TreeStats) -> bool {
    forall|i: int| 0 <= i < children.len() ==> (#[trigger] children[i]).size_bytes >= s.size_bytes
}

/// What the tool `read_text_file` does, in words.
pub const READ_TEXT_FILE_ABOUT: &'static str = "Read text from a file — logs, configs, manifests — without leaving the tool. Bounded to max_bytes (default 32 KB, cap 256 KB). Use mode=head to see the start of a file, mode=tail for the end of a log (whole-line aligned), mode=all for small files. UTF-8/UTF-16 BOMs are honored; binary files are refused. Read-only; honors workspaces.allow_roots/deny_roots.";

/// The parameters of the tool `read_text_file`.
pub open spec fn read_text_file_params() -> Seq<ParamView> {
    seq![
        ParamView::new("path"@, ParamKind::Text).about("Absolute path to a text file."@).needed(),
        ParamView::new("mode"@, ParamKind::Text)
            .choice("head"@)
            .choice("tail"@)
            .choice("all"@)
            .about("Which part to read (default head)."@),
        ParamView::new("max_bytes"@, ParamKind::Integer)
            .at_least(64)
            .at_most(262144)
            .about("Byte window (default 32768)."@),
    ]
}

/// The tool `read_text_file`.
pub open spec fn read_text_file_tool() -> ToolView {
    ToolView {
        name: "read_text_file"@,
        description: READ_TEXT_FILE_ABOUT@,
        input_schema: schema_view(read_text_file_params()),
        capability: Some(Capability::FilesystemRead),
        timeout_ms: None,
    }
}

/// The tool `read_text_file`.
pub fn read_text_file_definition() -> (r: ToolDefinition)
    ensures
        r@ == read_text_file_tool(),
{
    let params: Vec<Param> = vec![
        Param::new("path", ParamKind::Text).about("Absolute path to a text file.").needed(),
        Param::new("mode", ParamKind::Text)
            .choice("head")
            .choice("tail")
            .choice("all")
            .about("Which part to read (default head)."),
        Param::new("max_bytes", ParamKind::Integer)
            .at_least(64)
            .at_most(262144)
            .about("Byte window (default 32768)."),
    ];
    assert(param_views(params@) =~= read_text_file_params());
    ToolDefinition {
        name: "read_text_file",
        description: READ_TEXT_FILE_ABOUT,
        input_schema: input_schema(&params),
        capability: Some(Capability::FilesystemRead),
        timeout_ms: None,
    }
}

/// What the tool `find_files` does, in words.
pub const FIND_FILES_ABOUT: &'static str = "Find files by name under a directory: case-insensitive wildcard pattern (* and ?), e.g. pattern=\"*.log\" or \"settings*.json\". Bounded depth (default 6) and results (default 100); never follows symlinks/junctions; reports truncated/unreadable_dirs instead of failing. Use it to locate configs, logs, build outputs. Read-only.";

/// The parameters of the tool `find_files`.
pub open spec fn find_files_params() -> Seq<ParamView> {
    seq![
        ParamView::new("root"@, ParamKind::Text)
            .about("Absolute directory to search under."@)
            .needed(),
        ParamView::new("pattern"@, ParamKind::Text)
            .about("File-name wildcard, e.g. \"*.log\", \"*.pem\", \"report??.json\"."@)
            .needed(),
        ParamView::new("max_depth"@, ParamKind::Integer)
            .at_least(0)
            .at_most(12)
            .about("Recursion depth below root (default 6)."@),
        ParamView::new("max_results"@, ParamKind::Integer)
            .at_least(1)
            .at_most(500)
            .about("Result cap (default 100)."@),
    ]
}

/// The tool `find_files`.
pub open spec fn find_files_tool() -> ToolView {
    ToolView {
        name: "find_files"@,
        description: FIND_FILES_ABOUT@,
        input_schema: schema_view(find_files_params()),
        capability: Some(Capability::FilesystemRead),
        timeout_ms: None,
    }
}

/// The tool `find_files`.
pub fn find_files_definition() -> (r: ToolDefinition)
    ensures
        r@ == find_files_tool(),
{
    let params: Vec<Param> = vec![
        Param::new("root", ParamKind::Text).about("Absolute directory to search under.").needed(),
        Param::new("pattern", ParamKind::Text)
            .about("File-name wildcard, e.g. \"*.log\", \"*.pem\", \"report??.json\".")
            .needed(),
        Param::new("max_depth", ParamKind::Integer)
            .at_least(0)
            .at_most(12)
            .about("Recursion depth below root (default 6)."),
        Param::new("max_results", ParamKind::Integer)
            .at_least(1)
            .at_most(500)
            .about("Result cap (default 100)."),
    ];
    assert(param_views(params@) =~= find_files_params());
    ToolDefinition {
        name: "find_files",
        description: FIND_FILES_ABOUT,
        input_schema: input_schema(&params),
        capability: Some(Capability::FilesystemRead),
        timeout_ms: None,
    }
}

/// What the tool `directory_overview` does, in words.
pub const DIRECTORY_OVERVIEW_ABOUT: &'static str = "Break a directory down by size: every child with its recursive on-disk size, file count, and subdirectory count, sorted largest-first. Answers \"what is eating disk space here?\" in one call. Walks are entry-budgeted and never follow junctions. Read-only.";

/// The parameters of the tool `directory_overview`.
pub open spec fn directory_overview_params() -> Seq<ParamView> {
    seq![
        ParamView::new("path"@, ParamKind::Text)
            .about("Absolute directory to break down."@)
            .needed(),
        ParamView::new("max_children"@, ParamKind::Integer)
            .at_least(1)
            .at_most(500)
            .about("Children to include, sorted by size (default 50)."@),
    ]
}

/// The tool `directory_overview`.
pub open spec fn directory_overview_tool() -> ToolView {
    ToolView {
        name: "directory_overview"@,
        description: DIRECTORY_OVERVIEW_ABOUT@,
        input_schema: schema_view(directory_overview_params()),
        capability: Some(Capability::FilesystemRead),
        timeout_ms: None,
    }
}

/// The tool `directory_overview`.
pub fn directory_overview_definition() -> (r: ToolDefinition)
    ensures
        r@ == directory_overview_tool(),
{
    let params: Vec<Param> = vec![
        Param::new("path", ParamKind::Text).about("Absolute directory to break down.").needed(),
        Param::new("max_children", ParamKind::Integer)
            .at_least(1)
            .at_most(500)
            .about("Children to include, sorted by size (default 50)."),
    ];
    assert(param_views(params@) =~= directory_overview_params());
    ToolDefinition {
        name: "directory_overview",
        description: DIRECTORY_OVERVIEW_ABOUT,
        input_schema: input_schema(&params),
        capability: Some(Capability::FilesystemRead),
        timeout_ms: None,
    }
}

/// What two patterns match one behind the other, both together match.
proof fn lemma_patterns_join(a: Seq<char>, b: Seq<char>, x: Seq<char>, z: Seq<char>)
    requires
        name_matches(a, x),
        name_matches(b, z),
    ensures
        name_matches(a + b, x + z),
    decreases a.len() + x.len(),
{
    if a.len() == 0 {
        assert(a + b =~= b);
        assert(x + z =~= z);
    } else {
        let rest = a.drop_first();
        assert((a + b).drop_first() =~= rest + b);
        assert((a + b)[0] == a[0]);
        if x.len() > 0 {
            assert((x + z).drop_first() =~= x.drop_first() + z);
            assert((x + z)[0] == x[0]);
        }
        if a[0] == '*' {
            if name_matches(rest, x) {
                lemma_patterns_join(rest, b, x, z);
            } else {
                lemma_patterns_join(a, b, x.drop_first(), z);
            }
        } else {
            lemma_patterns_join(rest, b, x.drop_first(), z);
        }
    }
}

/// What two patterns match together can be cut into what each of them matches.
proof fn lemma_patterns_part(a: Seq<char>, b: Seq<char>, name: Seq<char>) -> (n: int)
    requires
        name_matches(a + b, name),
    ensures
        0 <= n <= name.len(),
        name_matches(a, name.take(n)),
        name_matches(b, name.skip(n)),
    decreases a.len() + name.len(),
{
    if a.len() == 0 {
        assert(a + b =~= b);
        assert(name.skip(0) =~= name);
        0
    } else {
        let rest = a.drop_first();
        assert((a + b).drop_first() =~= rest + b);
        assert((a + b)[0] == a[0]);
        if a[0] == '*' && name_matches(rest + b, name) {
            let n = lemma_patterns_part(rest, b, name);
            n
        } else {
            let tail = name.drop_first();
            let n = if a[0] == '*' {
                lemma_patterns_part(a, b, tail)
            } else {
                lemma_patterns_part(rest, b, tail)
            };
            assert(name.take(n + 1).drop_first() =~= tail.take(n));
            assert(name.skip(n + 1) =~= tail.skip(n));
            assert(name.take(n + 1)[0] == name[0]);
            n + 1
        }
    }
}

/// A star anywhere in a pattern may stand for no character: what the pattern
/// matches without the star it matches with it.
pub proof fn law_star_may_stand_for_nothing(
    a: Seq<char>,
    b: Seq<char>,
    without: &str,
    with: &str,
    name: &str,
    r: bool,
    s: bool,
)
    requires
        without@ == a + b,
        with@ == a + seq!['*'] + b,
        call_ensures(matches_name, (without, name), r),
        call_ensures(matches_name, (with, name), s),
    ensures
        r ==> s,
{
    if r {
        let n = lemma_patterns_part(a, b, name@);
        let none = Seq::<char>::empty();
        law_star_matches_all(none);
        lemma_patterns_join(a, seq!['*'], name@.take(n), none);
        lemma_patterns_join(a + seq!['*'], b, name@.take(n) + none, name@.skip(n));
        assert(name@.take(n) + none + name@.skip(n) =~= name@);
    }
}

/// A star stands for any characters and nothing else: a pattern with a star matches
/// a name exactly where the name begins with what the part before the star matches,
/// ends with what the part behind it matches, and the two do not overlap.
pub proof fn law_star_stands_for_anything(
    a: Seq<char>,
    b: Seq<char>,
    before: &str,
    behind: &str,
    with: &str,
    name: &str,
    s: bool,
)
    requires
        before@ == a,
        behind@ == b,
        with@ == a + seq!['*'] + b,
        call_ensures(matches_name, (with, name), s),
    ensures
        s <==> exists|n: int, m: int|
            0 <= n <= m <= name@.len() && name_matches(before@, #[trigger] name@.take(n))
                && name_matches(behind@, #[trigger] name@.skip(m)),
{
    let star = seq!['*'];
    if s {
        let m = lemma_patterns_part(a + star, b, name@);
        let n = lemma_patterns_part(a, star, name@.take(m));
        assert(name@.take(m).take(n) =~= name@.take(n));
        assert(name_matches(before@, name@.take(n)));
        assert(name_matches(behind@, name@.skip(m)));
    }
    if exists|n: int, m: int|
        0 <= n <= m <= name@.len() && name_matches(before@, #[trigger] name@.take(n))
            && name_matches(behind@, #[trigger] name@.skip(m)) {
        let (n, m) = choose|n: int, m: int|
            0 <= n <= m <= name@.len() && name_matches(before@, #[trigger] name@.take(n))
                && name_matches(behind@, #[trigger] name@.skip(m));
        let middle = name@.subrange(n, m);
        law_star_matches_all(middle);
        lemma_patterns_join(a, star, name@.take(n), middle);
        lemma_patterns_join(a + star, b, name@.take(n) + middle, name@.skip(m));
        assert(name@.take(n) + middle + name@.skip(m) =~= name@);
    }
}

/// A pattern without stars matches the names of its own length that have, at every
/// place, the pattern's character in either case, or any where it has a `?`.
pub proof fn law_without_stars_characters_match(pattern: &str, name: &str, r: bool)
    requires
        call_ensures(matches_name, (pattern, name), r),
        forall|i: int| 0 <= i < pattern@.len() ==> #[trigger] pattern@[i] != '*',
    ensures
        r <==> pattern@.len() == name@.len() && forall|i: int|
            0 <= i < pattern@.len() ==> #[trigger] pattern@[i] == '?' || same_letter(
                pattern@[i],
                name@[i],
            ),
{
    lemma_plain_match(pattern@, name@);
}

/// Are they the same character, ASCII letters in either case?
pub open spec fn same_letter(a: char, b: char) -> bool {
    a == b || ('A' <= a <= 'Z' && b as int == a as int + 32) || ('A' <= b <= 'Z' && a as int
        == b as int + 32)
}

proof fn lemma_same_letter(a: char, b: char)
    ensures
        lower_char(a) == lower_char(b) <==> same_letter(a, b),
{
}

proof fn lemma_plain_match(p: Seq<char>, name: Seq<char>)
    requires
        forall|i: int| 0 <= i < p.len() ==> #[trigger] p[i] != '*',
    ensures
        name_matches(p, name) <==> p.len() == name.len() && forall|i: int|
            0 <= i < p.len() ==> #[trigger] p[i] == '?' || same_letter(p[i], name[i]),
    decreases p.len(),
{
    if p.len() > 0 && name.len() > 0 {
        let q = p.drop_first();
        let rest = name.drop_first();
        assert forall|i: int| 0 <= i < q.len() implies #[trigger] q[i] != '*' by {
            assert(q[i] == p[i + 1]);
        }
        lemma_plain_match(q, rest);
        lemma_same_letter(p[0], name[0]);
        if p.len() == name.len() {
            let fits = |i: int| p[i] == '?' || same_letter(p[i], name[i]);
            if forall|i: int|
                0 <= i < q.len() ==> #[trigger] q[i] == '?' || same_letter(q[i], rest[i]) {
                assert forall|i: int| 1 <= i < p.len() implies #[trigger] p[i] == '?'
                    || same_letter(p[i], name[i]) by {
                    assert(q[i - 1] == p[i] && rest[i - 1] == name[i]);
                }
            }
            if forall|i: int|
                0 <= i < p.len() ==> #[trigger] p[i] == '?' || same_letter(p[i], name[i]) {
                assert forall|i: int| 0 <= i < q.len() implies #[trigger] q[i] == '?'
                    || same_letter(q[i], rest[i]) by {
                    assert(q[i] == p[i + 1] && rest[i] == name[i + 1]);
                }
            }
        }
    } else if p.len() > 0 {
        assert(p[0] != '*');
    }
}

/// Does the path begin with the components of one of the roots?
pub open spec fn stands_under(path: Seq<String>, roots: Seq<Root>) -> bool {
    exists|i: int| #![trigger roots[i]]
        0 <= i < roots.len() && roots[i] is Some && roots[i]->0@.len() <= path.len() && forall|k:
            int| 0 <= k < roots[i]->0@.len() ==> (#[trigger] path[k])@ == roots[i]->0@[k]@
}

proof fn lemma_stands_under(path: Seq<String>, roots: Seq<Root>)
    ensures
        under_any(views(path), roots) <==> stands_under(path, roots),
{
    assert forall|i: int| 0 <= i < roots.len() && roots[i] is Some implies (is_under(
        views(path),
        views(#[trigger] roots[i]->0@),
    ) <==> roots[i]->0@.len() <= path.len() && forall|k: int|
        0 <= k < roots[i]->0@.len() ==> (#[trigger] path[k])@ == roots[i]->0@[k]@) by {
        let root = roots[i]->0@;
        let p = views(path);
        let q = views(root);
        if root.len() <= path.len() {
            if p.take(q.len() as int) == q {
                assert forall|k: int| 0 <= k < root.len() implies (#[trigger] path[k])@
                    == root[k]@ by {
                    assert(p.take(q.len() as int)[k] == q[k]);
                }
            }
            if forall|k: int| 0 <= k < root.len() ==> (#[trigger] path[k])@ == root[k]@ {
                assert(p.take(q.len() as int) =~= q) by {
                    assert forall|k: int| 0 <= k < q.len() implies p.take(q.len() as int)[k]
                        == q[k] by {
                        assert(path[k]@ == root[k]@);
                    }
                }
            }
        }
    }
    if under_any(views(path), roots) {
        let i = choose|i: int|
            0 <= i < roots.len() && (#[trigger] roots[i] matches Some(r) && is_under(
                views(path),
                views(r@),
            ));
        assert(is_under(views(path), views(roots[i]->0@)));
        assert(roots[i] is Some);
    }
    if stands_under(path, roots) {
        let i = choose|i: int| #![trigger roots[i]]
            0 <= i < roots.len() && roots[i] is Some && roots[i]->0@.len() <= path.len() && forall|
                k: int,
            | 0 <= k < roots[i]->0@.len() ==> (#[trigger] path[k])@ == roots[i]->0@[k]@;
        assert(is_under(views(path), views(roots[i]->0@)));
    }
}

/// A file may be read exactly where its path is given, absolute, resolves to a
/// regular file, stands under no denied root, and under an allowed one where any is
/// named. A file that is not there is not found; what is no regular file is a wrong
/// argument; else the path is refused.
pub proof fn law_files_are_read_where_allowed(
    raw: &str,
    facts: FileFacts,
    allow: Vec<Root>,
    deny: Vec<Root>,
    r: Result<(), WinkitError>,
)
    requires
        call_ensures(check_file, (raw, &facts, &allow, &deny), r),
    ensures
        r is Ok <==> {
            &&& trimmed(raw@).len() > 0
            &&& facts.absolute
            &&& facts.resolved is Some
            &&& facts.regular
            &&& !stands_under(facts.resolved->0@, deny@)
            &&& allow@.len() == 0 || stands_under(facts.resolved->0@, allow@)
        },
        r is Err ==> {
            let named = trimmed(raw@).len() > 0 && facts.absolute;
            &&& r->Err_0.kind == ErrorKind::NotFound <==> named && facts.resolved is None
            &&& r->Err_0.kind == ErrorKind::InvalidArgument <==> named && facts.resolved is Some
                && !facts.regular
            &&& r->Err_0.kind == ErrorKind::PathRejected <==> !named || (facts.resolved is Some
                && facts.regular)
        },
{
    if facts.resolved is Some {
        lemma_stands_under(facts.resolved->0@, allow@);
        lemma_stands_under(facts.resolved->0@, deny@);
    }
}

/// A directory may be walked through exactly where its path is given, absolute,
/// resolves to a directory, stands under no denied root, and under an allowed one
/// where any is named; else its path is refused.
pub proof fn law_directories_are_walked_where_allowed(
    what: &str,
    raw: &str,
    facts: FileFacts,
    allow: Vec<Root>,
    deny: Vec<Root>,
    r: Result<(), WinkitError>,
)
    requires
        call_ensures(check_directory, (what, raw, &facts, &allow, &deny), r),
    ensures
        r is Ok <==> {
            &&& trimmed(raw@).len() > 0
            &&& facts.absolute
            &&& facts.resolved is Some
            &&& facts.regular
            &&& !stands_under(facts.resolved->0@, deny@)
            &&& allow@.len() == 0 || stands_under(facts.resolved->0@, allow@)
        },
        r is Err ==> r->Err_0.kind == ErrorKind::PathRejected,
{
    if facts.resolved is Some {
        lemma_stands_under(facts.resolved->0@, allow@);
        lemma_stands_under(facts.resolved->0@, deny@);
    }
}

/// A file is read from its beginning, or at its end up to its last byte; as much of
/// it as is asked for, or all of it where it is shorter.
pub proof fn law_window_is_head_or_tail(mode: ReadMode, total: u64, max_bytes: usize, r: (u64, usize))
    requires
        call_ensures(window_of, (mode, total, max_bytes), r),
    ensures
        r.1 <= max_bytes && r.1 <= total,
        r.1 == max_bytes || r.1 == total,
        mode == ReadMode::Tail ==> r.0 + r.1 == total,
        mode != ReadMode::Tail ==> r.0 == 0,
{
}

/// What is read of a file, where it is readable: of the end of a file the whole
/// lines, behind the first line break, and all of the bytes else; it is cut short
/// exactly where the file holds more.
pub proof fn law_tail_begins_with_a_whole_line(
    mode: ReadMode,
    offset: u64,
    total_bytes: u64,
    bytes: Vec<u8>,
    r: Result<TextSlice, WinkitError>,
)
    requires
        call_ensures(text_slice, (mode, offset, total_bytes, &bytes), r),
        r is Ok,
    ensures
        r->Ok_0.returned_bytes <= bytes@.len(),
        r->Ok_0.total_bytes == total_bytes,
        r->Ok_0.truncated <==> r->Ok_0.returned_bytes < total_bytes,
        mode != ReadMode::Tail || offset == 0 ==> r->Ok_0.returned_bytes == bytes@.len(),
        mode == ReadMode::Tail && offset > 0 ==> {
            let cut = bytes@.len() - r->Ok_0.returned_bytes;
            &&& forall|k: int| 0 <= k < cut - 1 ==> #[trigger] bytes@[k] != 10
            &&& cut == bytes@.len() || (cut > 0 && bytes@[cut - 1] == 10)
        },
{
    lemma_line_start(bytes@);
}

proof fn lemma_line_start(bytes: Seq<u8>)
    ensures
        0 <= line_start(bytes) <= bytes.len(),
        forall|k: int| 0 <= k < line_start(bytes) - 1 ==> #[trigger] bytes[k] != 10,
        line_start(bytes) == bytes.len() || (line_start(bytes) > 0 && bytes[line_start(bytes) - 1]
            == 10),
    decreases bytes.len(),
{
    if bytes.len() > 0 && bytes[0] != 10 {
        let rest = bytes.drop_first();
        lemma_line_start(rest);
        let n = line_start(bytes);
        assert forall|k: int| 0 <= k < n - 1 implies #[trigger] bytes[k] != 10 by {
            if k > 0 {
                assert(rest[k - 1] == bytes[k]);
            }
        }
        if n < bytes.len() {
            assert(rest[n - 2] == bytes[n - 1]);
        }
    }
}

/// The encoding is told by the mark in front: two bytes for either order of UTF-16,
/// three for UTF-8. Without a mark it is UTF-8, and what holds a zero byte then is no
/// text. The mark is no part of the text.
pub proof fn law_marks_tell_the_encoding(
    bytes: Vec<u8>,
    r: Result<(&'static str, String), WinkitError>,
)
    requires
        call_ensures(decode_text, (&bytes,), r),
    ensures
        ({
            let b = bytes@;
            let low = b.len() >= 2 && b[0] == 0xFF && b[1] == 0xFE;
            let high = b.len() >= 2 && b[0] == 0xFE && b[1] == 0xFF;
            let marked = b.len() >= 3 && b[0] == 0xEF && b[1] == 0xBB && b[2] == 0xBF;
            &&& r is Err <==> !low && !high && !marked && b.contains(0u8)
            &&& low ==> r->Ok_0.0@ == "utf-16le"@
            &&& high ==> r->Ok_0.0@ == "utf-16be"@
            &&& r is Ok && !low && !high ==> r->Ok_0.0@ == "utf-8"@
            &&& marked ==> r->Ok_0.1@ == lossy_text(b.skip(3))
            &&& r is Ok && !low && !high && !marked ==> r->Ok_0.1@ == lossy_text(b)
            &&& r is Err ==> r->Err_0.kind == ErrorKind::InvalidArgument
        }),
{
}

/// The two orders of UTF-16 say the same: bytes with the low one first, and the same
/// bytes with each pair turned round, have the same text.
pub proof fn law_byte_orders_agree(
    low: Vec<u8>,
    high: Vec<u8>,
    r: Result<(&'static str, String), WinkitError>,
    s: Result<(&'static str, String), WinkitError>,
)
    requires
        call_ensures(decode_text, (&low,), r),
        call_ensures(decode_text, (&high,), s),
        low@.len() == high@.len(),
        low@.len() % 2 == 0,
        low@.len() >= 2,
        low@[0] == 0xFF && low@[1] == 0xFE,
        forall|i: int|
            0 <= i < low@.len() / 2 ==> #[trigger] high@[2 * i] == low@[2 * i + 1] && high@[2 * i
                + 1] == low@[2 * i],
    ensures
        r is Ok && s is Ok,
        r->Ok_0.1@ == s->Ok_0.1@,
{
    let a = low@.skip(2);
    let b = high@.skip(2);
    assert(high@[2 * 0int] == low@[1] && high@[1] == low@[0]);
    let x = units_low_first(a);
    let y = units_high_first(b);
    assert forall|i: int| 0 <= i < x.len() implies x[i] == y[i] by {
        assert(high@[2 * (i + 1)] == low@[2 * (i + 1) + 1]);
        assert(a[2 * i] == low@[2 * (i + 1)] && a[2 * i + 1] == low@[2 * (i + 1) + 1]);
        assert(b[2 * i] == high@[2 * (i + 1)] && b[2 * i + 1] == high@[2 * (i + 1) + 1]);
    }
    assert(x =~= y);
}

/// In UTF-16 with the low byte first a unit is its first byte and 256 times its
/// second one.
pub proof fn law_units_weigh_their_bytes(bytes: Seq<u8>, i: int)
    requires
        0 <= i < bytes.len() / 2,
    ensures
        units_low_first(bytes).len() == bytes.len() / 2,
        units_low_first(bytes)[i] == bytes[2 * i] + 256 * bytes[2 * i + 1],
{
}

/// How much of a file is read: the part that is asked for, its head where none is;
/// the bytes that are asked for, from 64 to 262144, and 32768 where none are. A mode
/// of another name is a wrong argument, and so is a missing path.
pub proof fn law_reads_are_bounded(args: Json, r: Result<ReadPlan, WinkitError>)
    requires
        call_ensures(plan_read, (&args,), r),
    ensures
        r matches Ok(p) ==> {
            &&& 64 <= p.max_bytes <= 262144
            &&& args@.uint_at("max_bytes"@) is None ==> p.max_bytes == 32768
            &&& args@.uint_at("max_bytes"@) matches Some(n) ==> {
                &&& 64 <= n <= 262144 ==> p.max_bytes == n
                &&& n < 64 ==> p.max_bytes == 64
            }
            &&& args@.text_at("path"@) is Some && p.path@ == trimmed(args@.text_at("path"@)->0)
            &&& p.path@.len() > 0
            &&& args@.text_at("mode"@) is None ==> p.mode == ReadMode::Head
            &&& args@.text_at("mode"@) matches Some(m) ==> (trimmed(m).len() > 0 ==> {
                &&& p.mode == ReadMode::Head <==> trimmed(m) == "head"@
                &&& p.mode == ReadMode::Tail <==> trimmed(m) == "tail"@
                &&& p.mode == ReadMode::All <==> trimmed(m) == "all"@
            })
        },
        args@.text_at("path"@) is None ==> r is Err && r->Err_0.kind == ErrorKind::InvalidArgument,
        args@.text_at("path"@) matches Some(t) ==> (trimmed(t).len() > 0 && utf8_len(trimmed(t))
            <= 4096 && args@.text_at("mode"@) is None ==> r is Ok),
        args@.text_at("path"@) matches Some(t) ==> (trimmed(t).len() > 0 && utf8_len(trimmed(t))
            > 4096 ==> r is Err && r->Err_0.kind == ErrorKind::PathRejected),
{
    reveal_strlit("head");
    assert("head"@.len() == 4);
    reveal_strlit("tail");
    assert("tail"@.len() == 4);
    reveal_strlit("all");
    assert("all"@.len() == 3);
    assert("head"@[0] != "tail"@[0]);
}

/// How a search is bounded: the depth and the number of files that are asked for, up
/// to 12 and from 1 to 500, else 6 and 100. A pattern with a path separator is a wrong
/// argument.
pub proof fn law_searches_are_bounded(args: Json, r: Result<FindPlan, WinkitError>)
    requires
        call_ensures(plan_find, (&args,), r),
    ensures
        r matches Ok(p) ==> {
            &&& p.max_depth <= 12
            &&& 1 <= p.max_results <= 500
            &&& args@.uint_at("max_depth"@) is None ==> p.max_depth == 6
            &&& args@.uint_at("max_depth"@) matches Some(d) ==> (d <= 12 ==> p.max_depth == d)
            &&& args@.uint_at("max_depth"@) matches Some(d) ==> (12 < d <= u32::MAX ==> p.max_depth
                == 12)
            &&& args@.uint_at("max_results"@) is None ==> p.max_results == 100
            &&& args@.uint_at("max_results"@) matches Some(n) ==> (1 <= n <= 500 ==> p.max_results
                == n)
            &&& args@.uint_at("max_results"@) == Some(0u64) ==> p.max_results == 1
            &&& args@.text_at("root"@) is Some && p.root@ == trimmed(args@.text_at("root"@)->0)
            &&& args@.text_at("pattern"@) is Some && p.pattern@ == trimmed(
                args@.text_at("pattern"@)->0,
            )
            &&& !p.pattern@.contains('/') && !p.pattern@.contains('\\')
            &&& p.root@.len() > 0 && p.pattern@.len() > 0
        },
        r is Err ==> r->Err_0.kind == ErrorKind::InvalidArgument,
        args@.text_at("root"@) is Some && trimmed(args@.text_at("root"@)->0).len() > 0 && args@.text_at(
            "pattern"@,
        ) is Some && trimmed(args@.text_at("pattern"@)->0).len() > 0 && !trimmed(
            args@.text_at("pattern"@)->0,
        ).contains('/') && !trimmed(args@.text_at("pattern"@)->0).contains('\\') ==> r is Ok,
{
}

/// An overview shows as many children as are asked for, from 1 to 500, else 50.
pub proof fn law_overviews_are_bounded(args: Json, r: Result<(String, usize), WinkitError>)
    requires
        call_ensures(plan_overview, (&args,), r),
    ensures
        r matches Ok(p) ==> {
            &&& 1 <= p.1 <= 500
            &&& args@.uint_at("max_children"@) is None ==> p.1 == 50
            &&& args@.uint_at("max_children"@) matches Some(n) ==> (1 <= n <= 500 ==> p.1 == n)
            &&& args@.uint_at("max_children"@) == Some(0u64) ==> p.1 == 1
            &&& args@.text_at("path"@) is Some && p.0@ == trimmed(args@.text_at("path"@)->0)
        },
        r is Ok <==> args@.text_at("path"@) is Some && trimmed(args@.text_at("path"@)->0).len() > 0,
        r is Err ==> r->Err_0.kind == ErrorKind::InvalidArgument,
{
}

/// An overview adds up everything that was found, shown or not, and shows the
/// largest children, the largest first: as many as are asked for, or all; every one
/// that is left out is no larger than any that is shown.
pub proof fn law_overview_adds_up(
    stats: Vec<TreeStats>,
    cut: bool,
    max_children: usize,
    r: Overview,
)
    requires
        call_ensures(overview, (stats, cut, max_children), r),
        stats@.len() <= usize::MAX,
    ensures
        r.total_size_bytes == stats@.fold_left(0int, |n: int, s: TreeStats| n + s.size_bytes),
        r.total_files == stats@.fold_left(0int, |n: int, s: TreeStats| n + s.files),
        r.children_shown == r.children@.len(),
        r.children@.len() <= max_children,
        r.children@.len() == stats@.len() || r.children@.len() == max_children,
        r.children_truncated <==> cut || r.children@.len() < stats@.len(),
        forall|i: int, j: int|
            0 <= i < j < r.children@.len() ==> (#[trigger] r.children@[i]).size_bytes >= (
            #[trigger] r.children@[j]).size_bytes,
        forall|k: int|
            0 <= k < stats@.len() ==> (exists|i: int|
                0 <= i < r.children@.len() && (#[trigger] r.children@[i]).path@
                    == stats@[k].path@ && r.children@[i].size_bytes == stats@[k].size_bytes
                    && r.children@[i].files == stats@[k].files && r.children@[i].dirs
                    == stats@[k].dirs && r.children@[i].truncated == stats@[k].truncated) || (
            forall|i: int|
                0 <= i < r.children@.len() ==> (#[trigger] r.children@[i]).size_bytes >= (
                #[trigger] stats@[k]).size_bytes),
{
    lemma_below_folds(stats@);
    let shown = r.children@.len() as int;
    assert(largest_first(r.children@, stats@, shown));
    law_largest_are_shown(r.children@, stats@, shown);
    assert forall|k: int| 0 <= k < stats@.len() implies (exists|i: int|
        0 <= i < r.children@.len() && (#[trigger] r.children@[i]).path@ == stats@[k].path@
            && r.children@[i].size_bytes == stats@[k].size_bytes && r.children@[i].files
            == stats@[k].files && r.children@[i].dirs == stats@[k].dirs && r.children@[i].truncated
            == stats@[k].truncated) || (forall|i: int|
        0 <= i < r.children@.len() ==> (#[trigger] r.children@[i]).size_bytes >= (
        #[trigger] stats@[k]).size_bytes) by {
        assert(is_shown(r.children@, stats@[k]) || is_smallest(r.children@, stats@[k]));
    }
}

proof fn lemma_below_folds(stats: Seq<TreeStats>)
    ensures
        bytes_below(stats) == stats.fold_left(0int, |n: int, s: TreeStats| n + s.size_bytes),
        files_below(stats) == stats.fold_left(0int, |n: int, s: TreeStats| n + s.files),
    decreases stats.len(),
{
    if stats.len() > 0 {
        lemma_below_folds(stats.drop_last());
    }
}

/// Every directory of a walk gets the same share of the budget: an equal part of
/// 200000 entries, and never fewer than 2000; what was noted before does not count.
pub proof fn law_shares_are_equal(children: usize, r: OverviewWalk, n: usize)
    requires
        call_ensures(OverviewWalk::new, (children,), r),
        call_ensures(OverviewWalk::next_budget, (&r,), n),
    ensures
        n >= 2000,
        n == 2000 || n * children <= 200_000,
        children >= 1 ==> (n + 1) * children > 200_000,
        children <= 1 ==> n == 200_000,
{
    let m = if children < 1 {
        1int
    } else {
        children as int
    };
    let share = 200_000int / m;
    assert(share * m <= 200_000 < (share + 1) * m) by (nonlinear_arith)
        requires
            share == 200_000int / m,
            m >= 1,
    ;
    if n > share {
        assert((n + 1) * m >= (share + 1) * m) by (nonlinear_arith)
            requires
                n > share,
                m >= 1,
        ;
    }
}

} // verus!
