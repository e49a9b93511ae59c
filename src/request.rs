//! Reading a transform request: the image id from the path and the size
//! from the query.
use crate::key::TransformCfg;
use vstd::prelude::*;
use vstd::string::StrSliceExecFns;

verus! {

/// Why a request does not name a transform.
#[derive(Clone, Copy, Debug, PartialEq, Eq, Structural)]
pub enum RequestError {
    /// The path has no `/`, so no image id.
    MissingId,
    MissingHeight,
    BadHeight,
    MissingWidth,
    BadWidth,
}

pub open spec fn is_digit(c: char) -> bool {
    '0' <= c && c <= '9'
}

/// The value of a string of decimal digits.
pub open spec fn digits_value(s: Seq<char>) -> nat
    decreases s.len(),
{
    if s.len() == 0 {
        0
    } else {
        digits_value(s.drop_last()) * 10 + ((s.last() as u32) - ('0' as u32)) as nat
    }
}

/// The text after an optional leading `+`.
pub open spec fn unsigned_text(s: Seq<char>) -> Seq<char> {
    if s.len() > 0 && s[0] == '+' {
        s.skip(1)
    } else {
        s
    }
}

/// What `u32::from_str` makes of `s`: an optional `+`, then one or more
/// decimal digits whose value fits a `u32`.
pub open spec fn parsed_u32(s: Seq<char>) -> Option<u32> {
    let d = unsigned_text(s);
    if d.len() > 0 && (forall|i: int| 0 <= i < d.len() ==> is_digit(#[trigger] d[i]))
        && digits_value(d) <= u32::MAX {
        Some(digits_value(d) as u32)
    } else {
        None
    }
}

/// Appending digits never lowers the value.
proof fn lemma_digits_grow(d: Seq<char>, k: int)
    requires
        0 <= k <= d.len(),
        forall|i: int| 0 <= i < d.len() ==> is_digit(#[trigger] d[i]),
    ensures
        digits_value(d.take(k)) <= digits_value(d),
    decreases d.len() - k,
{
    if k < d.len() {
        lemma_digits_grow(d, k + 1);
        let t = d.take(k + 1);
        assert(t.drop_last() =~= d.take(k));
        assert(is_digit(d[k]));
        assert(t.last() == d[k]);
    } else {
        assert(d.take(k) =~= d);
    }
}

/// Parse an unsigned 32-bit decimal number as `u32::from_str` does.
pub fn parse_u32(s: &str) -> (r: Option<u32>)
    ensures
        r == parsed_u32(s@),
{
    let n = s.unicode_len();
    let mut i: usize = 0;
    if n > 0 && s.get_char(0) == '+' {
        i = 1;
    }
    let start = i;
    let ghost d = unsigned_text(s@);
    assert(d =~= s@.skip(start as int));
    if start == n {
        return None;
    }
    let mut acc: u64 = 0;
    while i < n
        invariant
            start <= i <= n,
            n == s@.len(),
            d == s@.skip(start as int),
            d == unsigned_text(s@),
            forall|k: int| 0 <= k < i - start ==> is_digit(#[trigger] d[k]),
            acc == digits_value(d.take(i - start)),
            acc <= u32::MAX,
        decreases n - i,
    {
        let c = s.get_char(i);
        assert(d[i - start] == c);
        if !('0' <= c && c <= '9') {
            assert(!is_digit(d[i - start]));
            return None;
        }
        proof {
            let t = d.take(i - start + 1);
            assert(t.drop_last() =~= d.take(i - start));
            assert(t.last() == c);
        }
        acc = acc * 10 + ((c as u32) - ('0' as u32)) as u64;
        i = i + 1;
        assert(acc == digits_value(d.take(i - start)));
        if acc > u32::MAX as u64 {
            proof {
                if forall|k: int| 0 <= k < d.len() ==> is_digit(#[trigger] d[k]) {
                    lemma_digits_grow(d, i - start);
                }
            }
            return None;
        }
    }
    assert(d.take(i - start) =~= d);
    Some(acc as u32)
}

/// The position of the first `/` in `s` at or after `from`, or the length
/// of `s` where there is none.
pub open spec fn next_slash(s: Seq<char>, from: int) -> int
    decreases s.len() - from,
{
    if from >= s.len() {
        s.len() as int
    } else if s[from] == '/' {
        from
    } else {
        next_slash(s, from + 1)
    }
}

/// The second `/`-separated segment of `path` (for `/cat.png/x`,
/// `cat.png`), or `None` where `path` holds no `/`.
pub open spec fn path_id(path: Seq<char>) -> Option<Seq<char>> {
    let i = next_slash(path, 0);
    if i >= path.len() {
        None
    } else {
        Some(path.subrange(i + 1, next_slash(path, i + 1)))
    }
}

/// Bounds of `next_slash`.
proof fn lemma_next_slash(s: Seq<char>, from: int)
    requires
        0 <= from <= s.len(),
    ensures
        from <= next_slash(s, from) <= s.len(),
    decreases s.len() - from,
{
    if from < s.len() && s[from] != '/' {
        lemma_next_slash(s, from + 1);
    }
}

/// The second `/`-separated segment of `path`, as `split('/').nth(1)`
/// gives it.
pub fn image_id(path: &str) -> (r: Option<String>)
    ensures
        r is None <==> path_id(path@) is None,
        r matches Some(id) ==> path_id(path@) == Some(id@),
{
    let n = path.unicode_len();
    let mut i: usize = 0;
    while i < n && path.get_char(i) != '/'
        invariant
            i <= n,
            n == path@.len(),
            next_slash(path@, 0) == next_slash(path@, i as int),
        decreases n - i,
    {
        i = i + 1;
    }
    if i == n {
        return None;
    }
    let mut j: usize = i + 1;
    while j < n && path.get_char(j) != '/'
        invariant
            i < j <= n,
            n == path@.len(),
            next_slash(path@, i + 1) == next_slash(path@, j as int),
        decreases n - j,
    {
        j = j + 1;
    }
    proof {
        lemma_next_slash(path@, j as int);
    }
    let id = String::from_str(path.substring_char(i + 1, j));
    Some(id)
}

/// The image id and the size that a transform request names: the id is the
/// second segment of the path, then the height and the width are read, in
/// that order.
pub fn read_request(path: &str, height: Option<&str>, width: Option<&str>) -> (r: Result<
    (String, TransformCfg),
    RequestError,
>)
    ensures
        path_id(path@) is None ==> r == Err::<(String, TransformCfg), RequestError>(
            RequestError::MissingId,
        ),
        path_id(path@) is Some ==> match height {
            None => r == Err::<(String, TransformCfg), RequestError>(RequestError::MissingHeight),
            Some(h) => match parsed_u32(h@) {
                None => r == Err::<(String, TransformCfg), RequestError>(RequestError::BadHeight),
                Some(hv) => match width {
                    None => r == Err::<(String, TransformCfg), RequestError>(
                        RequestError::MissingWidth,
                    ),
                    Some(w) => match parsed_u32(w@) {
                        None => r == Err::<(String, TransformCfg), RequestError>(
                            RequestError::BadWidth,
                        ),
                        Some(wv) => r matches Ok((id, cfg)) && cfg == (TransformCfg {
                            width: wv,
                            height: hv,
                        }) && path_id(path@) == Some(id@),
                    },
                },
            },
        },
{
    let id = match image_id(path) {
        Some(id) => id,
        None => return Err(RequestError::MissingId),
    };
    let height = match height {
        None => return Err(RequestError::MissingHeight),
        Some(h) => match parse_u32(h) {
            None => return Err(RequestError::BadHeight),
            Some(v) => v,
        },
    };
    let width = match width {
        None => return Err(RequestError::MissingWidth),
        Some(w) => match parse_u32(w) {
            None => return Err(RequestError::BadWidth),
            Some(v) => v,
        },
    };
    Ok((id, TransformCfg { width, height }))
}

} // verus!
