//! Page-URL construction: the first page lives at the site index, every
//! later page at a numbered catalogue path under the same base URL.
use vstd::prelude::*;
use vstd::string::StringExecFns;

verus! {

/// The decimal digit characters, for values zero through nine.
pub open spec fn digit_char(d: int) -> char {
    if d == 0 {
        '0'
    } else if d == 1 {
        '1'
    } else if d == 2 {
        '2'
    } else if d == 3 {
        '3'
    } else if d == 4 {
        '4'
    } else if d == 5 {
        '5'
    } else if d == 6 {
        '6'
    } else if d == 7 {
        '7'
    } else if d == 8 {
        '8'
    } else {
        '9'
    }
}

/// The decimal numeral of a nonnegative number, most significant digit first.
pub open spec fn spec_decimal(n: int) -> Seq<char>
    decreases n,
{
    if n < 10 {
        seq![digit_char(n)]
    } else {
        spec_decimal(n / 10).push(digit_char(n % 10))
    }
}

/// One decimal digit as a string slice.
fn digit_str(d: u32) -> (r: &'static str)
    requires
        d < 10,
    ensures
        r@ =~= seq![digit_char(d as int)],
{
    proof {
        reveal_strlit("0");
        reveal_strlit("1");
        reveal_strlit("2");
        reveal_strlit("3");
        reveal_strlit("4");
        reveal_strlit("5");
        reveal_strlit("6");
        reveal_strlit("7");
        reveal_strlit("8");
        reveal_strlit("9");
    }
    if d == 0 {
        "0"
    } else if d == 1 {
        "1"
    } else if d == 2 {
        "2"
    } else if d == 3 {
        "3"
    } else if d == 4 {
        "4"
    } else if d == 5 {
        "5"
    } else if d == 6 {
        "6"
    } else if d == 7 {
        "7"
    } else if d == 8 {
        "8"
    } else {
        "9"
    }
}

/// Appends the decimal numeral of `n` to `out`.
pub fn push_decimal(out: &mut String, n: u32)
    ensures
        final(out)@ == old(out)@ + spec_decimal(n as int),
    decreases n,
{
    if n >= 10 {
        push_decimal(out, n / 10);
    }
    out.append(digit_str(n % 10));
    proof {
        if n < 10 {
            assert(old(out)@ + spec_decimal(n as int) =~= out@);
        } else {
            assert(old(out)@ + spec_decimal(n as int) =~= out@);
        }
    }
}

/// The URL of page `n`: the site index for the first page, a numbered
/// catalogue page for every later one.
pub open spec fn spec_page_url(base: Seq<char>, n: int) -> Seq<char> {
    if n == 1 {
        base + "index.html"@
    } else {
        base + "catalogue/page-"@ + spec_decimal(n) + ".html"@
    }
}

/// Builds the URL of page `n` under `base`.
pub fn page_url(base: &str, n: u32) -> (url: String)
    requires
        1 <= n,
    ensures
        url@ == spec_page_url(base@, n as int),
{
    let mut url = String::new();
    url.append(base);
    if n == 1 {
        url.append("index.html");
    } else {
        url.append("catalogue/page-");
        push_decimal(&mut url, n);
        url.append(".html");
        proof {
            assert(url@ =~= spec_page_url(base@, n as int));
        }
    }
    url
}

/// Builds the ordered list of page URLs: one per page, page numbers one
/// through `count`.
pub fn build_page_urls(base: &str, count: u32) -> (urls: Vec<String>)
    ensures
        urls@.len() == count,
        forall|i: int|
            0 <= i < count ==> #[trigger] urls@[i]@ == spec_page_url(base@, i + 1),
{
    let mut urls: Vec<String> = Vec::new();
    let mut n: u32 = 0;
    while n < count
        invariant
            n <= count,
            urls@.len() == n,
            forall|i: int|
                0 <= i < n ==> #[trigger] urls@[i]@ == spec_page_url(base@, i + 1),
        decreases count - n,
    {
        n = n + 1;
        let url = page_url(base, n);
        urls.push(url);
    }
    urls
}

} // verus!
