use filmlog::search::{film_search_request, i32_to_string, show_search_request, SearchInfo};

fn info(query: &str, page: Option<i32>, lang: Option<&str>, year: Option<i32>) -> SearchInfo {
    SearchInfo {
        query: query.to_string(),
        page,
        lang: lang.map(|l| l.to_string()),
        year,
    }
}

#[test]
fn decimal_rendering_matches_the_usual_notation() {
    assert_eq!(i32_to_string(0), "0");
    assert_eq!(i32_to_string(7), "7");
    assert_eq!(i32_to_string(42), "42");
    assert_eq!(i32_to_string(1234567), "1234567");
    assert_eq!(i32_to_string(-3), "-3");
    assert_eq!(i32_to_string(i32::MAX), "2147483647");
    assert_eq!(i32_to_string(i32::MIN), "-2147483648");
}

#[test]
fn film_search_url_carries_key_and_query() {
    let url = film_search_request(&info("dune", None, None, None), "k1").unwrap();
    assert_eq!(
        url,
        "https://api.themoviedb.org/3/search/movie?api_key=k1&query=dune"
    );
}

#[test]
fn film_search_url_encodes_spaces() {
    let url = film_search_request(&info("dune part two", Some(2), None, Some(2024)), "k1")
        .unwrap();
    assert_eq!(
        url,
        "https://api.themoviedb.org/3/search/movie?api_key=k1&query=dune+part+two&page=2&year=2024"
    );
}

#[test]
fn film_search_url_carries_the_language() {
    let url = film_search_request(&info("dune", None, Some("de-DE"), None), "k1").unwrap();
    assert_eq!(
        url,
        "https://api.themoviedb.org/3/search/movie?api_key=k1&query=dune&language=de-DE"
    );
}

#[test]
fn show_search_url_uses_the_air_date_year_key() {
    let url = show_search_request(&info("severance", Some(1), None, Some(2022)), "k2").unwrap();
    assert_eq!(
        url,
        "https://api.themoviedb.org/3/search/tv?api_key=k2&query=severance&page=1&first_air_date_year=2022"
    );
}
