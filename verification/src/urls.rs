use vstd::prelude::*;
use vstd::string::*;
use crate::text::push_char;

verus! {

/// The decimal digit character for `d`.
pub open spec fn spec_digit_char(d: int) -> char {
    if d == 0 {
        '0'
    } else if d == 1 {
        '1'
    } else if d == 2 {
        '2'
    } else if d == 3 {
        '3'
    } else if d == 4 {
        '4'
    } else if d == 5 {
        '5'
    } else if d == 6 {
        '6'
    } else if d == 7 {
        '7'
    } else if d == 8 {
        '8'
    } else {
        '9'
    }
}

/// The decimal rendering of `n`, without leading zeros.
pub open spec fn spec_decimal(n: nat) -> Seq<char>
    decreases n,
{
    if n < 10 {
        seq![spec_digit_char(n as int)]
    } else {
        spec_decimal(n / 10).push(spec_digit_char((n % 10) as int))
    }
}

fn digit_char(d: u64) -> (c: char)
    requires
        d < 10,
    ensures
        c == spec_digit_char(d as int),
{
    if d == 0 {
        '0'
    } else if d == 1 {
        '1'
    } else if d == 2 {
        '2'
    } else if d == 3 {
        '3'
    } else if d == 4 {
        '4'
    } else if d == 5 {
        '5'
    } else if d == 6 {
        '6'
    } else if d == 7 {
        '7'
    } else if d == 8 {
        '8'
    } else {
        '9'
    }
}

/// Renders `n` in decimal.
pub fn u64_to_string(n: u64) -> (r: String)
    ensures
        r@ == spec_decimal(n as nat),
    decreases n,
{
    if n < 10 {
        let mut s = String::new();
        push_char(&mut s, digit_char(n));
        proof {
            assert(s@ =~= spec_decimal(n as nat));
        }
        s
    } else {
        let mut s = u64_to_string(n / 10);
        push_char(&mut s, digit_char(n % 10));
        proof {
            assert(s@ =~= spec_decimal(n as nat));
        }
        s
    }
}

/// The search page URL for a postal code and city. Page index `0` carries no
/// page parameter; page index `n >= 1` carries `page=n+1`, matching the
/// upstream pagination convention, whose external parameter is 2-based at its
/// first increment.
pub open spec fn spec_search_page_url(postal_code: Seq<char>, city: Seq<char>, page: nat) -> Seq<
    char,
> {
    let base = "https://www.doctolib.fr/vaccination-covid-19/"@ + postal_code + "-"@ + city
        + "?ref_visit_motive_ids[]=6970&ref_visit_motive_ids[]=7005&force_max_limit=2"@;
    if page == 0 {
        base
    } else {
        base + "&page="@ + spec_decimal(page + 1)
    }
}

/// Builds the search page URL for the given postal code, city and zero-based
/// page index.
pub fn search_page_url(postal_code: &str, city: &str, page: u32) -> (r: String)
    ensures
        r@ == spec_search_page_url(postal_code@, city@, page as nat),
{
    let mut s = String::new();
    s.append("https://www.doctolib.fr/vaccination-covid-19/");
    s.append(postal_code);
    s.append("-");
    s.append(city);
    s.append("?ref_visit_motive_ids[]=6970&ref_visit_motive_ids[]=7005&force_max_limit=2");
    if page > 0 {
        s.append("&page=");
        let num = u64_to_string(page as u64 + 1);
        s.append(num.as_str());
    }
    proof {
        assert(s@ =~= spec_search_page_url(postal_code@, city@, page as nat));
    }
    s
}

/// The detail endpoint URL for a center identifier, with the fixed visit
/// motive filter and result limits.
pub open spec fn spec_detail_url(center_id: Seq<char>) -> Seq<char> {
    "https://www.doctolib.fr/search_results/"@ + center_id
        + ".json?limit=4&ref_visit_motive_ids[]=6970&ref_visit_motive_ids[]=7005&speciality_id=5494&search_result_format=json&force_max_limit=2"@
}

/// Builds the detail endpoint URL for the given center identifier.
pub fn detail_url(center_id: &str) -> (r: String)
    ensures
        r@ == spec_detail_url(center_id@),
{
    let mut s = String::new();
    s.append("https://www.doctolib.fr/search_results/");
    s.append(center_id);
    s.append(
        ".json?limit=4&ref_visit_motive_ids[]=6970&ref_visit_motive_ids[]=7005&speciality_id=5494&search_result_format=json&force_max_limit=2",
    );
    proof {
        assert(s@ =~= spec_detail_url(center_id@));
    }
    s
}

} // verus!
