//! Requests to and answers from the analytics backend, and the paths under
//! which it counts the blog's page views.
use vstd::prelude::*;

use crate::errors::ResponseError;

verus! {

/// Credentials sent to the analytics backend's login endpoint.
#[derive(Clone, Debug, PartialEq, Eq, Default)]
pub struct LoginRequest {
    pub username: String,
    pub password: String,
}

/// The account that a login was made as.
#[derive(Clone, Debug, PartialEq, Eq, Default)]
pub struct LoginResponseUser {
    pub username: String,
    pub role: String,
}

/// What a successful login returns: a session token and its account.
#[derive(Clone, Debug, PartialEq, Eq, Default)]
pub struct LoginResponse {
    pub token: String,
    pub user: LoginResponseUser,
}

/// One row of a metrics query: a path and its page views.
#[derive(Clone, Debug, PartialEq, Eq, Default)]
pub struct MetricsResponseItem {
    pub x: String,
    pub y: u64,
}

/// One row of a metrics query whose count arrives as text.
#[derive(Clone, Debug, PartialEq, Eq, Default)]
pub struct MetricsTextItem {
    pub x: String,
    pub y: String,
}

pub open spec fn is_digit(c: char) -> bool {
    '0' <= c && c <= '9'
}

/// The digits of a count: the text without one leading `+`.
pub open spec fn count_digits(s: Seq<char>) -> Seq<char> {
    if s.len() > 0 && s[0] == '+' {
        s.drop_first()
    } else {
        s
    }
}

/// The text is a count: an optional `+`, then one digit or more.
pub open spec fn is_count_text(s: Seq<char>) -> bool {
    let d = count_digits(s);
    d.len() > 0 && forall|i: int| 0 <= i < d.len() ==> is_digit(#[trigger] d[i])
}

/// The number that a string of decimal digits writes.
pub open spec fn decimal_value(d: Seq<char>) -> nat
    decreases d.len(),
{
    if d.len() == 0 {
        0
    } else {
        decimal_value(d.drop_last()) * 10 + ((d.last() as u32 - '0' as u32) as nat)
    }
}

/// A count read from text: its value where the text is a count that fits in
/// 64 bits, a parse error otherwise.
pub open spec fn count_result(s: Seq<char>) -> Result<u64, ResponseError> {
    if is_count_text(s) && decimal_value(count_digits(s)) <= u64::MAX {
        Ok(decimal_value(count_digits(s)) as u64)
    } else {
        Err(ResponseError::ParseIntError)
    }
}

/// The page views of one path, from the rows that a metrics query for that
/// path returned: not found where there is no row, else the count of the
/// first row.
pub open spec fn pageviews_result(rows: Seq<MetricsTextItem>) -> Result<u64, ResponseError> {
    if rows.len() == 0 {
        Err(ResponseError::NotFoundError)
    } else {
        count_result(rows[0].y@)
    }
}

/// A longer string of digits writes a number at least as large.
proof fn lemma_decimal_value_grows(d: Seq<char>, k: int)
    requires
        0 <= k <= d.len(),
    ensures
        decimal_value(d.take(k)) <= decimal_value(d),
    decreases d.len() - k,
{
    if k < d.len() {
        lemma_decimal_value_grows(d, k + 1);
        assert(d.take(k + 1).drop_last() =~= d.take(k));
    } else {
        assert(d.take(k) =~= d);
    }
}

/// Reads a count from text.
pub fn parse_count(s: &String) -> (r: Result<u64, ResponseError>)
    ensures
        r == count_result(s@),
{
    let text = s.as_str();
    let len = text.unicode_len();
    let mut i: usize = 0;
    if len > 0 && text.get_char(0) == '+' {
        i = 1;
    }
    let start = i;
    let ghost d = count_digits(s@);
    assert(d =~= s@.subrange(start as int, len as int));
    if start == len {
        return Err(ResponseError::ParseIntError);
    }
    let mut acc: u64 = 0;
    while i < len
        invariant
            text@ == s@,
            len == s@.len(),
            start <= i <= len,
            d == s@.subrange(start as int, len as int),
            d == count_digits(s@),
            d.len() > 0,
            forall|j: int| 0 <= j < i - start ==> is_digit(#[trigger] d[j]),
            acc as nat == decimal_value(d.take(i - start)),
        decreases len - i,
    {
        let c = text.get_char(i);
        assert(c == d[i - start]);
        if c < '0' || c > '9' {
            assert(!is_digit(d[i - start]));
            return Err(ResponseError::ParseIntError);
        }
        let digit = (c as u32 - '0' as u32) as u64;
        assert(d.take(i - start + 1).drop_last() =~= d.take(i - start));
        if acc > (u64::MAX - digit) / 10 {
            proof {
                assert(acc * 10 + digit > u64::MAX) by (nonlinear_arith)
                    requires
                        acc > (u64::MAX - digit) / 10,
                        digit <= 9,
                ;
                lemma_decimal_value_grows(d, i - start + 1);
            }
            return Err(ResponseError::ParseIntError);
        }
        acc = acc * 10 + digit;
        i = i + 1;
    }
    assert(d.take(len - start) =~= d);
    Ok(acc)
}

/// The page views of one path from the rows of its metrics query.
pub fn pageviews_from_rows(rows: &Vec<MetricsTextItem>) -> (r: Result<u64, ResponseError>)
    ensures
        r == pageviews_result(rows@),
{
    if rows.len() == 0 {
        Err(ResponseError::NotFoundError)
    } else {
        parse_count(&rows[0].y)
    }
}

/// The path prefix under which every post is served.
pub open spec fn blog_prefix() -> Seq<char> {
    seq!['/', 'b', 'l', 'o', 'g']
}

/// The path of the post with the given slug.
pub open spec fn blog_path(slug: Seq<char>) -> Seq<char> {
    blog_prefix().push('/') + slug
}

/// Page views that a metrics answer gives for `path`: the count of the last
/// row with that path (a later row replaces an earlier one, as when the rows
/// are indexed by path), or zero where no row has it.
pub open spec fn prefix_views(items: Seq<MetricsResponseItem>, path: Seq<char>) -> u64
    decreases items.len(),
{
    if items.len() == 0 {
        0
    } else if items.last().x@ == path {
        items.last().y
    } else {
        prefix_views(items.drop_last(), path)
    }
}

/// The prefix `/blog` as a string.
pub fn blog_prefix_string() -> (r: String)
    ensures
        r@ == blog_prefix(),
{
    let r = "/blog".to_string();
    proof {
        reveal_strlit("/blog");
    }
    r
}

/// The path `/blog/{slug}` of a post.
pub fn blog_path_string(slug: &String) -> (r: String)
    ensures
        r@ == blog_path(slug@),
{
    let mut r = "/blog/".to_string();
    proof {
        reveal_strlit("/blog/");
    }
    assert(r@ =~= blog_prefix().push('/'));
    r.append(slug.as_str());
    r
}

/// Looks the page views of `path` up in a metrics answer, zero where the
/// answer has no row for it.
pub fn find_pageviews(items: &Vec<MetricsResponseItem>, path: &String) -> (r: u64)
    ensures
        r == prefix_views(items@, path@),
{
    let mut i: usize = items.len();
    assert(items@.take(i as int) =~= items@);
    while i > 0
        invariant
            i <= items.len(),
            prefix_views(items@, path@) == prefix_views(items@.take(i as int), path@),
        decreases i,
    {
        let ghost prefix = items@.take(i as int);
        assert(prefix.drop_last() =~= items@.take(i - 1));
        assert(prefix.last() == items@[i - 1]);
        if items[i - 1].x == *path {
            return items[i - 1].y;
        }
        i = i - 1;
    }
    0
}

} // verus!
