//! The metadata search proxy's request side: assembling the query
//! parameters a search request carries and rendering them as a URL. The
//! HTTP exchange itself belongs to the surrounding service.

use vstd::prelude::*;
use vstd::assert_seqs_equal;

use crate::errors::ServiceError;

verus! {

/// A search request as the caller supplies it.
#[derive(Debug)]
pub struct SearchInfo {
    pub query: String,
    pub page: Option<i32>,
    pub lang: Option<String>,
    pub year: Option<i32>,
}

/// One film record of a search response.
#[derive(Debug)]
pub struct Movie {
    pub id: i32,
    pub title: String,
    pub original_title: String,
    pub original_language: String,
    pub release_date: String,
    pub overview: String,
    pub poster_path: Option<String>,
}

/// One show record of a search response.
#[derive(Debug)]
pub struct Show {
    pub id: i32,
    pub name: String,
    pub original_name: String,
    pub original_language: String,
    pub first_air_date: String,
    pub overview: String,
    pub poster_path: Option<String>,
}

/// A search response page.
#[derive(Debug)]
pub struct Results<T> {
    pub results: Vec<T>,
    pub page: i32,
    pub total_pages: i32,
    pub total_results: i32,
}

/// The character of one decimal digit.
pub open spec fn spec_digit_char(d: int) -> char
    recommends
        0 <= d < 10,
{
    ((d + 48) as u8) as char
}

/// The decimal digits of a nonnegative number, most significant first.
pub open spec fn spec_nat_digits(n: int) -> Seq<char>
    recommends
        n >= 0,
    decreases n,
    when n >= 0
{
    if n < 10 {
        seq![spec_digit_char(n)]
    } else {
        spec_nat_digits(n / 10).push(spec_digit_char(n % 10))
    }
}

/// The decimal rendering of a number, with a leading minus where negative.
pub open spec fn spec_i32_chars(n: int) -> Seq<char> {
    if n < 0 {
        seq!['-'] + spec_nat_digits(-n)
    } else {
        spec_nat_digits(n)
    }
}

/// The one-character string of a decimal digit.
fn digit_str(d: u64) -> (s: &'static str)
    requires
        d < 10,
    ensures
        s@ == seq![spec_digit_char(d as int)],
{
    proof {
        reveal_strlit("0");
        reveal_strlit("1");
        reveal_strlit("2");
        reveal_strlit("3");
        reveal_strlit("4");
        reveal_strlit("5");
        reveal_strlit("6");
        reveal_strlit("7");
        reveal_strlit("8");
        reveal_strlit("9");
    }
    match d {
        0 => "0",
        1 => "1",
        2 => "2",
        3 => "3",
        4 => "4",
        5 => "5",
        6 => "6",
        7 => "7",
        8 => "8",
        _ => "9",
    }
}

/// Append the decimal digits of `n` to `s`.
fn push_digits(s: &mut String, n: u64)
    ensures
        final(s)@ == old(s)@ + spec_nat_digits(n as int),
    decreases n,
{
    if n >= 10 {
        push_digits(s, n / 10);
    }
    let d = digit_str(n % 10);
    s.append(d);
    proof {
        assert_seqs_equal!(s@ == old(s)@ + spec_nat_digits(n as int));
    }
}

/// Render a number in decimal.
pub fn i32_to_string(n: i32) -> (s: String)
    ensures
        s@ == spec_i32_chars(n as int),
{
    let mut s = String::new();
    if n < 0 {
        proof {
            reveal_strlit("-");
        }
        s.append("-");
        assert(s@ =~= seq!['-']);
        let m: u64 = (-(n as i64)) as u64;
        push_digits(&mut s, m);
    } else {
        let m: u64 = n as u64;
        push_digits(&mut s, m);
        proof {
            assert_seqs_equal!(s@ == spec_nat_digits(n as int));
        }
    }
    s
}

/// The key/value pairs a search request carries, in their fixed order: the
/// service's key and the query first, then the optional page, language and
/// year parameters of the request.
pub open spec fn spec_search_params(
    info: SearchInfo,
    api_key: Seq<char>,
    year_key: Seq<char>,
) -> Seq<(Seq<char>, Seq<char>)> {
    let s = seq![("api_key"@, api_key), ("query"@, info.query@)];
    let s = match info.page {
        Some(p) => s.push(("page"@, spec_i32_chars(p as int))),
        None => s,
    };
    let s = match info.lang {
        Some(l) => s.push(("language"@, l@)),
        None => s,
    };
    let s = match info.year {
        Some(y) => s.push((year_key, spec_i32_chars(y as int))),
        None => s,
    };
    s
}

/// The views of a built parameter list.
pub open spec fn spec_param_views(params: Seq<(String, String)>) -> Seq<(Seq<char>, Seq<char>)> {
    params.map_values(|p: (String, String)| (p.0@, p.1@))
}

/// Assemble the key/value pairs of one search request.
fn search_params(info: &SearchInfo, api_key: &str, year_key: &str) -> (params: Vec<
    (String, String),
>)
    ensures
        spec_param_views(params@) == spec_search_params(*info, api_key@, year_key@),
{
    let mut params: Vec<(String, String)> = Vec::new();
    params.push(("api_key".to_owned(), api_key.to_owned()));
    params.push(("query".to_owned(), info.query.clone()));
    proof {
        assert(spec_param_views(params@) =~= seq![
            ("api_key"@, api_key@),
            ("query"@, info.query@),
        ]);
    }
    let ghost s2 = spec_param_views(params@);
    if let Some(p) = info.page {
        params.push(("page".to_owned(), i32_to_string(p)));
        proof {
            assert(spec_param_views(params@) =~= s2.push(("page"@, spec_i32_chars(p as int))));
        }
    }
    let ghost s3 = spec_param_views(params@);
    if let Some(l) = &info.lang {
        params.push(("language".to_owned(), l.clone()));
        proof {
            assert(spec_param_views(params@) =~= s3.push(("language"@, info.lang->0@)));
        }
    }
    let ghost s4 = spec_param_views(params@);
    if let Some(y) = info.year {
        params.push((year_key.to_owned(), i32_to_string(y)));
        proof {
            assert(spec_param_views(params@) =~= s4.push((year_key@, spec_i32_chars(y as int))));
        }
    }
    params
}

/// What the URL rendering of key/value pairs is: the
/// `application/x-www-form-urlencoded` encoding.
pub uninterp spec fn urlencoded_of(pairs: Seq<(Seq<char>, Seq<char>)>) -> Seq<char>;

/// The failure type of the URL encoder.
#[verifier::external_type_specification]
#[verifier::external_body]
pub struct ExUrlencodeError(serde_urlencoded::ser::Error);

/// Relies on serde_urlencoded::to_string: the urlencoded rendering of the
/// key/value pairs, a function of the pairs alone.
#[verifier::external_body]
fn urlencode_pairs(pairs: &Vec<(String, String)>) -> (r: Result<
    String,
    serde_urlencoded::ser::Error,
>)
    ensures
        r matches Ok(s) ==> s@ == urlencoded_of(spec_param_views(pairs@)),
{
    serde_urlencoded::to_string(pairs)
}

/// Build the URL of one film search request; parameters the encoder
/// refuses surface as a 400.
pub fn film_search_request(info: &SearchInfo, api_key: &str) -> (r: Result<String, ServiceError>)
    ensures
        r matches Ok(url) ==> url@ == "https://api.themoviedb.org/3/search/movie?"@
            + urlencoded_of(spec_search_params(*info, api_key@, "year"@)),
        r matches Err(e) ==> e.status == 400 && e.message@ == "Invalid search params"@,
{
    let params = search_params(info, api_key, "year");
    match urlencode_pairs(&params) {
        Ok(q) => Ok("https://api.themoviedb.org/3/search/movie?".to_owned().concat(q.as_str())),
        Err(_) => Err(ServiceError::new(400, "Invalid search params".to_owned())),
    }
}

/// Build the URL of one show search request; parameters the encoder
/// refuses surface as a 400.
pub fn show_search_request(info: &SearchInfo, api_key: &str) -> (r: Result<String, ServiceError>)
    ensures
        r matches Ok(url) ==> url@ == "https://api.themoviedb.org/3/search/tv?"@ + urlencoded_of(
            spec_search_params(*info, api_key@, "first_air_date_year"@),
        ),
        r matches Err(e) ==> e.status == 400 && e.message@ == "Invalid search params"@,
{
    let params = search_params(info, api_key, "first_air_date_year");
    match urlencode_pairs(&params) {
        Ok(q) => Ok("https://api.themoviedb.org/3/search/tv?".to_owned().concat(q.as_str())),
        Err(_) => Err(ServiceError::new(400, "Invalid search params".to_owned())),
    }
}

} // verus!
