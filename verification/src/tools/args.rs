//! Reading the arguments of a tool, and wrapping its results.

use crate::errors::{err_view, res_view, ErrorKind, ErrorView, WinkitError};
use crate::json::{json_views, Json, JsonView};
use crate::text::{
    ascii_lower, byte_len, concat3, lower, opt_view, same, trim, trimmed, utf8_len, views,
};
use vstd::prelude::*;
use vstd::string::*;

verus! {

/// The longest path, in bytes.
pub const MAX_VALIDATED_PATH: usize = 32768;

/// The error of an argument that is not there.
pub open spec fn missing(key: Seq<char>) -> ErrorView {
    err_view(ErrorKind::InvalidArgument, "missing required argument '"@ + key + "'"@)
}

fn missing_error(key: &str) -> (r: WinkitError)
    ensures
        r@ == missing(key@),
{
    WinkitError::invalid_argument(&concat3("missing required argument '", key, "'"))
}

/// A result with a text, taken by its views.
pub open spec fn text_result(r: Result<String, WinkitError>) -> Result<Seq<char>, ErrorView> {
    match r {
        Ok(s) => Ok(s@),
        Err(e) => Err(e@),
    }
}

/// The text of an argument.
pub fn optional_string(args: &Json, key: &str) -> (r: Option<String>)
    ensures
        opt_view(r) == args@.text_at(key@),
{
    args.text_at(key)
}

/// The text that an argument must hold, trimmed and not empty.
pub open spec fn needed_text(args: JsonView, key: Seq<char>) -> Result<Seq<char>, ErrorView> {
    match args.text_at(key) {
        None => Err(missing(key)),
        Some(s) => if trimmed(s).len() == 0 {
            Err(err_view(ErrorKind::InvalidArgument, "'"@ + key + "' must not be empty"@))
        } else {
            Ok(trimmed(s))
        },
    }
}

/// The text that an argument must hold, trimmed and not empty.
pub fn required_string(args: &Json, key: &str) -> (r: Result<String, WinkitError>)
    ensures
        text_result(r) == needed_text(args@, key@),
{
    match args.text_at(key) {
        None => Err(missing_error(key)),
        Some(raw) => {
            let t = trim(&raw);
            if t.as_str().is_empty() {
                Err(WinkitError::invalid_argument(&concat3("'", key, "' must not be empty")))
            } else {
                Ok(t)
            }
        },
    }
}

/// The text of an argument, trimmed, where there is any.
pub open spec fn given_text(args: JsonView, key: Seq<char>) -> Option<Seq<char>> {
    match args.text_at(key) {
        Some(s) => if trimmed(s).len() == 0 {
            None
        } else {
            Some(trimmed(s))
        },
        None => None,
    }
}

/// The text of an argument, trimmed, where there is any.
pub fn optional_non_empty_string(args: &Json, key: &str) -> (r: Option<String>)
    ensures
        opt_view(r) == given_text(args@, key@),
{
    match args.text_at(key) {
        Some(raw) => {
            let t = trim(&raw);
            if t.as_str().is_empty() {
                None
            } else {
                Some(t)
            }
        },
        None => None,
    }
}

/// The low thirty-two bits of a number.
pub open spec fn low32(n: u64) -> u32 {
    (n % 0x1_0000_0000) as u32
}

/// The number of an argument, of which the low thirty-two bits count.
pub open spec fn u32_at(args: JsonView, key: Seq<char>) -> Option<u32> {
    match args.uint_at(key) {
        Some(n) => Some(low32(n)),
        None => None,
    }
}

/// The number of an argument, of which the low thirty-two bits count.
pub fn optional_u32(args: &Json, key: &str) -> (r: Option<u32>)
    ensures
        r == u32_at(args@, key@),
{
    match args.uint_at(key) {
        Some(n) => Some((n % 0x1_0000_0000) as u32),
        None => None,
    }
}

/// The number of an argument.
pub fn optional_u64(args: &Json, key: &str) -> (r: Option<u64>)
    ensures
        r == args@.uint_at(key@),
{
    args.uint_at(key)
}

/// The number of an argument as a count.
pub open spec fn usize_at(args: JsonView, key: Seq<char>) -> Option<usize> {
    match args.uint_at(key) {
        Some(n) => Some(n as usize),
        None => None,
    }
}

/// The number of an argument as a count.
pub fn optional_usize(args: &Json, key: &str) -> (r: Option<usize>)
    ensures
        r == usize_at(args@, key@),
{
    match args.uint_at(key) {
        Some(n) => Some(n as usize),
        None => None,
    }
}

/// The truth value of an argument.
pub fn optional_bool(args: &Json, key: &str) -> (r: Option<bool>)
    ensures
        r == args@.bool_at(key@),
{
    args.bool_at(key)
}

/// The number that an argument must hold.
pub open spec fn needed_u32(args: JsonView, key: Seq<char>) -> Result<u32, ErrorView> {
    match u32_at(args, key) {
        Some(n) => Ok(n),
        None => Err(missing(key)),
    }
}

/// The number that an argument must hold.
pub fn required_u32(args: &Json, key: &str) -> (r: Result<u32, WinkitError>)
    ensures
        res_view(r) == needed_u32(args@, key@),
{
    match optional_u32(args, key) {
        Some(n) => Ok(n),
        None => Err(missing_error(key)),
    }
}

/// The number that an argument must hold.
pub fn required_u64(args: &Json, key: &str) -> (r: Result<u64, WinkitError>)
    ensures
        res_view(r) == (match args@.uint_at(key@) {
            Some(n) => Ok::<u64, ErrorView>(n),
            None => Err(missing(key@)),
        }),
{
    match args.uint_at(key) {
        Some(n) => Ok(n),
        None => Err(missing_error(key)),
    }
}

/// The process number that an argument must hold: above zero, in 32 bits.
pub open spec fn needed_pid(args: JsonView, key: Seq<char>) -> Result<u32, ErrorView> {
    match args.uint_at(key) {
        None => Err(missing(key)),
        Some(n) => if n == 0 {
            Err(err_view(ErrorKind::InvalidArgument, "'"@ + key + "' must be > 0"@))
        } else if n > u32::MAX {
            Err(
                err_view(
                    ErrorKind::InvalidArgument,
                    "'"@ + key + "' must be an integer in 1..=4294967295"@,
                ),
            )
        } else {
            Ok(n as u32)
        },
    }
}

/// The process number that an argument must hold.
pub fn parse_pid(args: &Json, key: &str) -> (r: Result<u32, WinkitError>)
    ensures
        res_view(r) == needed_pid(args@, key@),
{
    match args.uint_at(key) {
        None => Err(missing_error(key)),
        Some(n) => {
            if n == 0 {
                Err(WinkitError::invalid_argument(&concat3("'", key, "' must be > 0")))
            } else if n > 0xFFFF_FFFF {
                Err(
                    WinkitError::invalid_argument(
                        &concat3("'", key, "' must be an integer in 1..=4294967295"),
                    ),
                )
            } else {
                Ok(n as u32)
            }
        },
    }
}

/// A number as a port.
pub open spec fn as_port(raw: u64, key: Seq<char>) -> Result<u16, ErrorView> {
    if 1 <= raw <= 65535 {
        Ok(raw as u16)
    } else {
        Err(
            err_view(
                ErrorKind::InvalidArgument,
                "'"@ + key + "' must be an integer in 1..=65535"@,
            ),
        )
    }
}

fn to_port(raw: u64, key: &str) -> (r: Result<u16, WinkitError>)
    ensures
        res_view(r) == as_port(raw, key@),
{
    if 1 <= raw && raw <= 65535 {
        Ok(raw as u16)
    } else {
        Err(
            WinkitError::invalid_argument(
                &concat3("'", key, "' must be an integer in 1..=65535"),
            ),
        )
    }
}

/// The port of an argument, where there is one.
pub fn optional_parse_port(args: &Json, key: &str) -> (r: Result<Option<u16>, WinkitError>)
    ensures
        res_view(r) == (match args@.uint_at(key@) {
            Some(raw) => match as_port(raw, key@) {
                Ok(p) => Ok::<Option<u16>, ErrorView>(Some(p)),
                Err(e) => Err(e),
            },
            None => Ok(None),
        }),
{
    match args.uint_at(key) {
        Some(raw) => match to_port(raw, key) {
            Ok(p) => Ok(Some(p)),
            Err(e) => Err(e),
        },
        None => Ok(None),
    }
}

/// The port that an argument must hold.
pub open spec fn needed_port(args: JsonView, key: Seq<char>) -> Result<u16, ErrorView> {
    match args.uint_at(key) {
        Some(raw) => as_port(raw, key),
        None => Err(missing(key)),
    }
}

/// The port that an argument must hold.
pub fn parse_port(args: &Json, key: &str) -> (r: Result<u16, WinkitError>)
    ensures
        res_view(r) == needed_port(args@, key@),
{
    match args.uint_at(key) {
        Some(raw) => to_port(raw, key),
        None => Err(missing_error(key)),
    }
}

/// The texts among the items, trimmed; what is empty or no text is left out.
pub open spec fn trimmed_texts(items: Seq<JsonView>) -> Seq<Seq<char>>
    decreases items.len(),
{
    if items.len() == 0 {
        Seq::empty()
    } else {
        let before = trimmed_texts(items.drop_last());
        match items.last().as_text() {
            Some(s) => if trimmed(s).len() == 0 {
                before
            } else {
                before.push(trimmed(s))
            },
            None => before,
        }
    }
}

/// Optional texts taken by their views.
pub open spec fn opt_views(o: Option<Vec<String>>) -> Option<Seq<Seq<char>>> {
    match o {
        Some(v) => Some(views(v@)),
        None => None,
    }
}

/// The texts of an array argument, trimmed, where there are any.
pub fn optional_string_array(args: &Json, key: &str) -> (r: Option<Vec<String>>)
    ensures
        opt_views(r) == (match args@.array_at(key@) {
            Some(items) => if trimmed_texts(items).len() == 0 {
                None
            } else {
                Some(trimmed_texts(items))
            },
            None => None,
        }),
{
    match args.array_at(key) {
        Some(items) => {
            let ghost all = json_views(items@);
            let mut out: Vec<String> = Vec::new();
            let mut i: usize = 0;
            assert(views(out@) =~= Seq::<Seq<char>>::empty());
            while i < items.len()
                invariant
                    all == json_views(items@),
                    i <= items@.len(),
                    views(out@) == trimmed_texts(all.take(i as int)),
                decreases items@.len() - i,
            {
                assert(all.take(i + 1).drop_last() == all.take(i as int));
                assert(all[i as int] == items@[i as int]@);
                let ghost before = views(out@);
                match items[i].as_text() {
                    Some(s) => {
                        let t = trim(s);
                        if !t.as_str().is_empty() {
                            out.push(t);
                            assert(views(out@) =~= before.push(t@));
                        }
                    },
                    None => {},
                }
                i = i + 1;
            }
            assert(all.take(all.len() as int) == all);
            assert(views(out@).len() == out@.len());
            if out.len() == 0 {
                None
            } else {
                Some(out)
            }
        },
        None => None,
    }
}

/// A requested count brought between one and `max`; `max` where none was
/// requested.
pub open spec fn limit_for(requested: Option<usize>, max: usize) -> usize {
    match requested {
        Some(v) => if v < 1 {
            1
        } else if v > max {
            max
        } else {
            v
        },
        None => max,
    }
}

/// A requested count brought between one and `max`; `max` where none was
/// requested.
pub fn clamp_limit(requested: Option<usize>, max: usize) -> (r: usize)
    requires
        requested is Some ==> max >= 1,
    ensures
        r == limit_for(requested, max),
        r <= max,
        max >= 1 ==> r >= 1,
{
    match requested {
        Some(v) => {
            if v < 1 {
                1
            } else if v > max {
                max
            } else {
                v
            }
        },
        None => max,
    }
}

/// A time in minutes brought into the range of event queries.
pub open spec fn minutes_for(requested: u64) -> u64 {
    if requested < 1 {
        1
    } else if requested > 129600 {
        129600
    } else {
        requested
    }
}

/// A time in minutes brought into the range of event queries.
pub fn clamp_minutes(requested: u64) -> (r: u64)
    ensures
        r == minutes_for(requested),
        1 <= r <= 129600,
{
    if requested < 1 {
        1
    } else if requested > 129600 {
        129600
    } else {
        requested
    }
}

/// Was a list cut off: did it come to its limit?
pub open spec fn is_cut(count: usize, limit: usize) -> bool {
    count == limit
}

/// The envelope of a list: the items under `key`, how many they are, and
/// whether the list was cut off at its limit.
pub open spec fn list_view(key: Seq<char>, items: JsonView, count: usize, limit: usize) -> JsonView {
    JsonView::object().with(key, items).with("count"@, JsonView::Int(count as int)).with(
        "truncated"@,
        JsonView::Bool(is_cut(count, limit)),
    )
}

/// The envelope of a list.
pub fn list_envelope(key: &str, items: Json, count: usize, limit: usize) -> (r: Json)
    ensures
        r@ == list_view(key@, items@, count, limit),
{
    Json::object().with(key, items).with("count", Json::UInt(count as u64)).with(
        "truncated",
        Json::Bool(count == limit),
    )
}

/// An object with the members of another put over its own.
pub open spec fn merged(base: JsonView, extra: JsonView) -> JsonView {
    match (base, extra) {
        (JsonView::Object(b), JsonView::Object(e)) => JsonView::Object(b.union_prefer_right(e)),
        (other, _) => other,
    }
}

/// The envelope of a list with further members; a further member takes the
/// place of one of the same name.
pub fn list_envelope_with(key: &str, items: Json, count: usize, limit: usize, extra: Json) -> (r:
    Json)
    ensures
        r@ == merged(list_view(key@, items@, count, limit), extra@),
{
    let base = list_envelope(key, items, count, limit);
    base.merge(extra)
}

/// The envelope of a single item.
pub fn item_envelope(key: &str, value: Json) -> (r: Json)
    ensures
        r@ == JsonView::object().with(key@, value@),
{
    Json::object().with(key, value)
}

/// The least severity that a level name stands for.
pub open spec fn level_number(name: Seq<char>) -> Option<u32> {
    let n = ascii_lower(trimmed(name));
    if n == "critical"@ {
        Some(1)
    } else if n == "error"@ {
        Some(2)
    } else if n == "warning"@ || n == "warn"@ {
        Some(3)
    } else if n == "information"@ || n == "info"@ {
        Some(4)
    } else if n == "verbose"@ {
        Some(5)
    } else {
        None
    }
}

/// The least severity that a level name stands for, from one (critical) to
/// five (verbose).
pub fn level_to_min(level: &str) -> (r: Option<u32>)
    ensures
        r == level_number(level@),
{
    let n = lower(&trim(level));
    if same(&n, "critical") {
        Some(1)
    } else if same(&n, "error") {
        Some(2)
    } else if same(&n, "warning") || same(&n, "warn") {
        Some(3)
    } else if same(&n, "information") || same(&n, "info") {
        Some(4)
    } else if same(&n, "verbose") {
        Some(5)
    } else {
        None
    }
}

/// A path as it is used: trimmed, not empty, not too long.
pub open spec fn usable_path(raw: Seq<char>) -> Result<Seq<char>, ErrorView> {
    if trimmed(raw).len() == 0 {
        Err(err_view(ErrorKind::InvalidArgument, "'path' must not be empty"@))
    } else if utf8_len(trimmed(raw)) > MAX_VALIDATED_PATH {
        Err(err_view(ErrorKind::InvalidArgument, "'path' is too long"@))
    } else {
        Ok(trimmed(raw))
    }
}

/// A path as it is used: trimmed, not empty, not too long.
pub fn validated_path(raw: &str) -> (r: Result<String, WinkitError>)
    ensures
        text_result(r) == usable_path(raw@),
{
    let t = trim(raw);
    if t.as_str().is_empty() {
        return Err(WinkitError::invalid_argument("'path' must not be empty"));
    }
    if byte_len(&t) > MAX_VALIDATED_PATH {
        return Err(WinkitError::invalid_argument("'path' is too long"));
    }
    Ok(t)
}

/// The path that an argument must hold.
pub open spec fn needed_path(args: JsonView, key: Seq<char>) -> Result<Seq<char>, ErrorView> {
    match needed_text(args, key) {
        Ok(s) => usable_path(s),
        Err(e) => Err(e),
    }
}

/// The path that an argument must hold.
pub fn required_path(args: &Json, key: &str) -> (r: Result<String, WinkitError>)
    ensures
        text_result(r) == needed_path(args@, key@),
{
    match required_string(args, key) {
        Ok(s) => validated_path(&s),
        Err(e) => Err(e),
    }
}

/// A requested number of results counts from one up to the most that is allowed;
/// where none is requested, the most that is allowed counts.
pub proof fn law_limits_are_kept(requested: Option<usize>, max: usize, r: usize)
    requires
        call_ensures(clamp_limit, (requested, max), r),
        max >= 1,
    ensures
        1 <= r <= max,
        requested is None ==> r == max,
        requested matches Some(n) ==> {
            &&& 1 <= n <= max ==> r == n
            &&& n > max ==> r == max
            &&& n == 0 ==> r == 1
        },
{
}

/// A required text is there and is more than white space; it is handed on without
/// the white space around it. Without it the argument is wrong.
pub proof fn law_required_texts_are_there(args: Json, key: &str, r: Result<String, WinkitError>)
    requires
        call_ensures(required_string, (&args, key), r),
    ensures
        r is Ok <==> args@.text_at(key@) is Some && trimmed(args@.text_at(key@)->0).len() > 0,
        r matches Ok(t) ==> t@ == trimmed(args@.text_at(key@)->0),
        r matches Err(e) ==> e.kind == ErrorKind::InvalidArgument,
{
}

/// A process number is one from 1 to 4294967295, and a port one from 1 to 65535;
/// anything else is a wrong argument.
pub proof fn law_numbers_are_in_range(
    args: Json,
    key: &str,
    p: Result<u32, WinkitError>,
    q: Result<u16, WinkitError>,
    o: Result<Option<u16>, WinkitError>,
)
    requires
        call_ensures(parse_pid, (&args, key), p),
        call_ensures(parse_port, (&args, key), q),
        call_ensures(optional_parse_port, (&args, key), o),
    ensures
        p is Ok <==> args@.uint_at(key@) is Some && 1 <= args@.uint_at(key@)->0 <= 4294967295,
        p matches Ok(n) ==> n == args@.uint_at(key@)->0,
        q is Ok <==> args@.uint_at(key@) is Some && 1 <= args@.uint_at(key@)->0 <= 65535,
        q matches Ok(n) ==> n == args@.uint_at(key@)->0,
        o is Ok <==> args@.uint_at(key@) is None || 1 <= args@.uint_at(key@)->0 <= 65535,
        args@.uint_at(key@) is None ==> o == Ok::<Option<u16>, WinkitError>(None),
        o is Ok && args@.uint_at(key@) is Some ==> o->Ok_0 is Some && o->Ok_0->0 == args@.uint_at(
            key@,
        )->0,
        p matches Err(e) ==> e.kind == ErrorKind::InvalidArgument,
        q matches Err(e) ==> e.kind == ErrorKind::InvalidArgument,
        o matches Err(e) ==> e.kind == ErrorKind::InvalidArgument,
{
}

/// A list is told under its name, with its count, and as cut short where the count
/// is the limit.
pub proof fn law_lists_tell_their_count(
    key: &str,
    items: Json,
    count: usize,
    limit: usize,
    r: Json,
)
    requires
        call_ensures(list_envelope, (key, items, count, limit), r),
        key@ != "count"@,
        key@ != "truncated"@,
    ensures
        r@.get(key@) == Some(items@),
        r@.get("count"@) == Some(JsonView::Int(count as int)),
        r@.get("truncated"@) == Some(JsonView::Bool(count == limit)),
{
    reveal_strlit("count");
    assert("count"@.len() == 5);
    reveal_strlit("truncated");
    assert("truncated"@.len() == 9);
}

/// The levels of events: critical is 1, error 2, warning 3, information 4, verbose 5;
/// case and white space around a name do not count, and no other name is a level.
pub proof fn law_levels_have_numbers(level: &str, r: Option<u32>)
    requires
        call_ensures(level_to_min, (level,), r),
    ensures
        ascii_lower(trimmed(level@)) == "critical"@ <==> r == Some(1u32),
        ascii_lower(trimmed(level@)) == "error"@ <==> r == Some(2u32),
        ascii_lower(trimmed(level@)) == "warning"@ || ascii_lower(trimmed(level@)) == "warn"@ <==> r
            == Some(3u32),
        ascii_lower(trimmed(level@)) == "information"@ || ascii_lower(trimmed(level@)) == "info"@
            <==> r == Some(4u32),
        ascii_lower(trimmed(level@)) == "verbose"@ <==> r == Some(5u32),
        r matches Some(n) ==> 1 <= n <= 5,
{
    reveal_strlit("critical");
    assert("critical"@.len() == 8);
    reveal_strlit("error");
    assert("error"@.len() == 5);
    reveal_strlit("warning");
    assert("warning"@.len() == 7);
    reveal_strlit("warn");
    assert("warn"@.len() == 4);
    reveal_strlit("information");
    assert("information"@.len() == 11);
    reveal_strlit("info");
    assert("info"@.len() == 4);
    reveal_strlit("verbose");
    assert("verbose"@.len() == 7);
    assert("warning"@[0] != "verbose"@[0]);
    assert("warn"@[0] != "info"@[0]);
}

/// A required number is the one that is given, of which 32 bits count where no more are
/// wanted; without it the argument is missing.
pub proof fn law_required_numbers_are_there(
    args: Json,
    key: &str,
    a: Result<u32, WinkitError>,
    b: Result<u64, WinkitError>,
)
    requires
        call_ensures(required_u32, (&args, key), a),
        call_ensures(required_u64, (&args, key), b),
    ensures
        a is Ok <==> args@.uint_at(key@) is Some,
        b is Ok <==> args@.uint_at(key@) is Some,
        b is Ok ==> b->Ok_0 == args@.uint_at(key@)->0,
        a is Ok && args@.uint_at(key@)->0 <= 4294967295 ==> a->Ok_0 == args@.uint_at(key@)->0,
        a is Err ==> a->Err_0.kind == ErrorKind::InvalidArgument && a->Err_0.message@
            == "missing required argument '"@ + key@ + "'"@,
        b is Err ==> b->Err_0.kind == ErrorKind::InvalidArgument,
{
}

/// A list of texts is taken without white space around them and without empty ones, in
/// order; what is no text is left out.
pub proof fn law_texts_are_gathered(items: Seq<JsonView>, last: JsonView)
    ensures
        trimmed_texts(Seq::empty()) == Seq::<Seq<char>>::empty(),
        last matches JsonView::Text(s) ==> (trimmed(s).len() > 0 ==> trimmed_texts(
            items.push(last),
        ) == trimmed_texts(items).push(trimmed(s))),
        last matches JsonView::Text(s) ==> (trimmed(s).len() == 0 ==> trimmed_texts(
            items.push(last),
        ) == trimmed_texts(items)),
        !(last is Text) ==> trimmed_texts(items.push(last)) == trimmed_texts(items),
{
    assert(items.push(last).drop_last() =~= items);
}

/// A path is taken without the white space around it; one that is empty or longer than
/// 32768 bytes is refused.
pub proof fn law_paths_are_usable(args: Json, key: &str, r: Result<String, WinkitError>)
    requires
        call_ensures(required_path, (&args, key), r),
        args@.text_at(key@) is Some,
    ensures
        ({
            let t = trimmed(trimmed(args@.text_at(key@)->0));
            &&& r is Ok ==> r->Ok_0@ == t && t.len() > 0 && utf8_len(t) <= 32768
            &&& trimmed(args@.text_at(key@)->0).len() > 0 && t.len() > 0 && utf8_len(t) <= 32768
                ==> r is Ok
            &&& r is Err ==> r->Err_0.kind == ErrorKind::InvalidArgument
        }),
{
}

/// A time in minutes counts from one up to ninety days.
pub proof fn law_minutes_are_bounded(requested: u64, r: u64)
    requires
        call_ensures(clamp_minutes, (requested,), r),
    ensures
        1 <= r <= 90 * 24 * 60,
        1 <= requested <= 90 * 24 * 60 ==> r == requested,
        requested > 90 * 24 * 60 ==> r == 90 * 24 * 60,
        requested == 0 ==> r == 1,
{
}

/// What is told along with a list stands beside it, and takes the place of what has its
/// name.
pub proof fn law_further_members_are_told(
    key: &str,
    items: Json,
    count: usize,
    limit: usize,
    extra: Json,
    r: Json,
    name: Seq<char>,
)
    requires
        call_ensures(list_envelope_with, (key, items, count, limit, extra), r),
        extra@ is Object,
    ensures
        extra@.get(name) is Some ==> r@.get(name) == extra@.get(name),
        extra@.get(key@) is None && key@ != "count"@ && key@ != "truncated"@ ==> r@.get(key@)
            == Some(items@),
        extra@.get("count"@) is None ==> r@.uint_at("count"@) == Some(count as u64),
        extra@.get("truncated"@) is None ==> r@.bool_at("truncated"@) == Some(count == limit),
{
    reveal_strlit("count");
    assert("count"@.len() == 5);
    reveal_strlit("truncated");
    assert("truncated"@.len() == 9);
}

} // verus!
