//! The station-directory parser: the document's root carries repeated
//! `station` elements, each with `id`, `name`, `ascii_name` and `ruby`
//! children; parsing yields the records in document order, with the
//! predefined entity references decoded, and judges any other shape
//! malformed — a document without a single station element (an error
//! page, a changed root) is never a silently empty catalog.

use vstd::prelude::*;
use vstd::string::StrSliceExecFns;

use crate::errors::{ProtocolFault, RadikoError};

verus! {

/// One station of the directory.
pub struct Station {
    /// The station id.
    pub id: String,
    /// The display name.
    pub name: String,
    /// The ASCII name.
    pub ascii_name: String,
    /// The phonetic name.
    pub ruby: String,
}

/// The fields of one parsed station element, as character sequences.
pub struct StationFields {
    /// The station id.
    pub id: Seq<char>,
    /// The display name.
    pub name: Seq<char>,
    /// The ASCII name.
    pub ascii_name: Seq<char>,
    /// The phonetic name.
    pub ruby: Seq<char>,
}

/// View of parsed stations as their field sequences.
pub open spec fn spec_station_views(v: Seq<Station>) -> Seq<StationFields> {
    v.map_values(
        |st: Station|
            StationFields {
                id: st.id@,
                name: st.name@,
                ascii_name: st.ascii_name@,
                ruby: st.ruby@,
            },
    )
}

/// The text with XML's five predefined entity references (`&amp;`,
/// `&lt;`, `&gt;`, `&apos;`, `&quot;`) decoded; anything else passes
/// through unchanged.
pub open spec fn spec_decode_entities(s: Seq<char>) -> Seq<char>
    decreases s.len(),
{
    if s.len() == 0 {
        Seq::empty()
    } else if s.len() >= 5 && s[0] == '&' && s[1] == 'a' && s[2] == 'm' && s[3] == 'p' && s[4]
        == ';' {
        seq!['&'] + spec_decode_entities(s.skip(5))
    } else if s.len() >= 4 && s[0] == '&' && s[1] == 'l' && s[2] == 't' && s[3] == ';' {
        seq!['<'] + spec_decode_entities(s.skip(4))
    } else if s.len() >= 4 && s[0] == '&' && s[1] == 'g' && s[2] == 't' && s[3] == ';' {
        seq!['>'] + spec_decode_entities(s.skip(4))
    } else if s.len() >= 6 && s[0] == '&' && s[1] == 'a' && s[2] == 'p' && s[3] == 'o' && s[4]
        == 's' && s[5] == ';' {
        seq!['\''] + spec_decode_entities(s.skip(6))
    } else if s.len() >= 6 && s[0] == '&' && s[1] == 'q' && s[2] == 'u' && s[3] == 'o' && s[4]
        == 't' && s[5] == ';' {
        seq!['"'] + spec_decode_entities(s.skip(6))
    } else {
        seq![s[0]] + spec_decode_entities(s.drop_first())
    }
}

/// Concatenation regrouped around one pushed character.
proof fn lemma_concat_push(prefix: Seq<char>, x: char, rest: Seq<char>)
    ensures
        prefix + (seq![x] + rest) == prefix.push(x) + rest,
{
    assert(prefix + (seq![x] + rest) =~= prefix.push(x) + rest);
}

/// Relies on std's `String::from_iter` over `char`: the result holds
/// exactly the iterator's characters in order.
#[verifier::external_body]
fn chars_to_string(v: &Vec<char>) -> (r: String)
    ensures
        r@ == v@,
{
    v.iter().collect()
}

/// Decodes the five predefined entity references of a field's text.
fn decode_entities(s: &str) -> (r: String)
    ensures
        r@ == spec_decode_entities(s@),
{
    let n = s.unicode_len();
    let mut out: Vec<char> = Vec::new();
    let mut i: usize = 0;
    proof {
        assert(s@.skip(0) =~= s@);
    }
    while i < n
        invariant
            0 <= i <= n,
            n == s@.len(),
            spec_decode_entities(s@) == out@ + spec_decode_entities(s@.skip(i as int)),
        decreases n - i,
    {
        let ghost tail = s@.skip(i as int);
        proof {
            assert(forall|k: int| 0 <= k < tail.len() ==> #[trigger] tail[k] == s@[i + k]);
        }
        let c = s.get_char(i);
        if c == '&' && n - i > 4 && s.get_char(i + 1) == 'a' && s.get_char(i + 2) == 'm'
            && s.get_char(i + 3) == 'p' && s.get_char(i + 4) == ';' {
            proof {
                assert(tail.skip(5) =~= s@.skip(i as int + 5));
                lemma_concat_push(out@, '&', spec_decode_entities(s@.skip(i as int + 5)));
            }
            out.push('&');
            i = i + 5;
        } else if c == '&' && n - i > 3 && s.get_char(i + 1) == 'l' && s.get_char(i + 2) == 't'
            && s.get_char(i + 3) == ';' {
            proof {
                assert(tail.skip(4) =~= s@.skip(i as int + 4));
                lemma_concat_push(out@, '<', spec_decode_entities(s@.skip(i as int + 4)));
            }
            out.push('<');
            i = i + 4;
        } else if c == '&' && n - i > 3 && s.get_char(i + 1) == 'g' && s.get_char(i + 2) == 't'
            && s.get_char(i + 3) == ';' {
            proof {
                assert(tail.skip(4) =~= s@.skip(i as int + 4));
                lemma_concat_push(out@, '>', spec_decode_entities(s@.skip(i as int + 4)));
            }
            out.push('>');
            i = i + 4;
        } else if c == '&' && n - i > 5 && s.get_char(i + 1) == 'a' && s.get_char(i + 2) == 'p'
            && s.get_char(i + 3) == 'o' && s.get_char(i + 4) == 's' && s.get_char(i + 5) == ';' {
            proof {
                assert(tail.skip(6) =~= s@.skip(i as int + 6));
                lemma_concat_push(out@, '\'', spec_decode_entities(s@.skip(i as int + 6)));
            }
            out.push('\'');
            i = i + 6;
        } else if c == '&' && n - i > 5 && s.get_char(i + 1) == 'q' && s.get_char(i + 2) == 'u'
            && s.get_char(i + 3) == 'o' && s.get_char(i + 4) == 't' && s.get_char(i + 5) == ';' {
            proof {
                assert(tail.skip(6) =~= s@.skip(i as int + 6));
                lemma_concat_push(out@, '"', spec_decode_entities(s@.skip(i as int + 6)));
            }
            out.push('"');
            i = i + 6;
        } else {
            proof {
                assert(tail.drop_first() =~= s@.skip(i as int + 1));
                assert(spec_decode_entities(tail) == seq![tail[0]] + spec_decode_entities(
                    tail.drop_first(),
                ));
                lemma_concat_push(out@, c, spec_decode_entities(s@.skip(i as int + 1)));
            }
            out.push(c);
            i = i + 1;
        }
    }
    proof {
        assert(s@.skip(n as int) =~= Seq::<char>::empty());
    }
    chars_to_string(&out)
}

/// `pat` occurs in `s` at position `i`.
pub open spec fn spec_match_at(s: Seq<char>, pat: Seq<char>, i: int) -> bool {
    0 <= i && i + pat.len() <= s.len() && s.subrange(i, i + pat.len()) == pat
}

/// The first position at or after `from` where `pat` occurs in `s`.
pub open spec fn spec_find(s: Seq<char>, pat: Seq<char>, from: int) -> Option<int>
    decreases s.len() - from,
{
    if from < 0 || from + pat.len() > s.len() {
        None
    } else if pat.len() == 0 {
        Some(from)
    } else if spec_match_at(s, pat, from) {
        Some(from)
    } else {
        spec_find(s, pat, from + 1)
    }
}

/// A found position is at or after the start and really matches.
pub proof fn lemma_find_props(s: Seq<char>, pat: Seq<char>, from: int)
    ensures
        match spec_find(s, pat, from) {
            Some(i) => from <= i && spec_match_at(s, pat, i),
            None => true,
        },
    decreases s.len() - from,
{
    if !(from < 0 || from + pat.len() > s.len()) && pat.len() != 0 && !spec_match_at(
        s,
        pat,
        from,
    ) {
        lemma_find_props(s, pat, from + 1);
    } else if !(from < 0 || from + pat.len() > s.len()) && pat.len() == 0 {
        assert(s.subrange(from, from) =~= pat);
    }
}

/// The text between the first `open_tag` and the next `close_tag` after
/// it, if both occur.
pub open spec fn spec_extract(
    region: Seq<char>,
    open_tag: Seq<char>,
    close_tag: Seq<char>,
) -> Option<Seq<char>> {
    match spec_find(region, open_tag, 0) {
        None => None,
        Some(o) => {
            let start = o + open_tag.len();
            match spec_find(region, close_tag, start) {
                None => None,
                Some(c) => Some(region.subrange(start, c)),
            }
        },
    }
}

/// The stations the document names from position `from` on: each
/// `station` element must close and carry all four fields, whose text
/// is taken with entity references decoded; a document whose next
/// `station` element is incomplete has no parse.
pub open spec fn spec_parse_stations(s: Seq<char>, from: int) -> Option<Seq<StationFields>>
    decreases s.len() - from,
        via spec_parse_stations_decreases
{
    if from < 0 || from > s.len() {
        None
    } else {
        match spec_find(s, "<station>"@, from) {
            None => Some(Seq::empty()),
            Some(o) => {
                let body_start = o + "<station>"@.len();
                match spec_find(s, "</station>"@, body_start) {
                    None => None,
                    Some(c) => {
                        let region = s.subrange(body_start, c);
                        match (
                            spec_extract(region, "<id>"@, "</id>"@),
                            spec_extract(region, "<name>"@, "</name>"@),
                            spec_extract(region, "<ascii_name>"@, "</ascii_name>"@),
                            spec_extract(region, "<ruby>"@, "</ruby>"@),
                        ) {
                            (Some(idv), Some(namev), Some(anv), Some(rbv)) => {
                                match spec_parse_stations(s, c + "</station>"@.len()) {
                                    None => None,
                                    Some(rest) => Some(
                                        seq![
                                            StationFields {
                                                id: spec_decode_entities(idv),
                                                name: spec_decode_entities(namev),
                                                ascii_name: spec_decode_entities(anv),
                                                ruby: spec_decode_entities(rbv),
                                            },
                                        ] + rest,
                                    ),
                                }
                            },
                            _ => None,
                        }
                    },
                }
            },
        }
    }
}

#[via_fn]
proof fn spec_parse_stations_decreases(s: Seq<char>, from: int) {
    reveal_strlit("<station>");
    reveal_strlit("</station>");
    if 0 <= from <= s.len() {
        lemma_find_props(s, "<station>"@, from);
        match spec_find(s, "<station>"@, from) {
            Some(o) => {
                lemma_find_props(s, "</station>"@, o + 9);
            },
            None => {},
        }
    }
}

/// Whether `pat` occurs in `s` at position `i`, by character compare.
fn match_at(s: &str, pat: &str, i: usize) -> (r: bool)
    requires
        i + pat@.len() <= s@.len(),
    ensures
        r == spec_match_at(s@, pat@, i as int),
{
    let n = s.unicode_len();
    let m = pat.unicode_len();
    let mut j: usize = 0;
    while j < m
        invariant
            0 <= j <= m,
            n == s@.len(),
            m == pat@.len(),
            i + m <= n,
            forall|k: int| 0 <= k < j ==> s@[i + k] == pat@[k],
        decreases m - j,
    {
        if s.get_char(i + j) != pat.get_char(j) {
            proof {
                assert(s@.subrange(i as int, i + m) != pat@) by {
                    if s@.subrange(i as int, i + m) == pat@ {
                        assert(s@.subrange(i as int, i + m)[j as int] == s@[i + j]);
                    }
                }
            }
            return false;
        }
        j = j + 1;
    }
    proof {
        assert(s@.subrange(i as int, i + m) =~= pat@);
    }
    true
}

/// Finds the first occurrence of `pat` in `s` at or after `from`.
fn find_from(s: &str, pat: &str, from: usize) -> (r: Option<usize>)
    requires
        from <= s@.len(),
    ensures
        match r {
            Some(i) => spec_find(s@, pat@, from as int) == Some(i as int),
            None => spec_find(s@, pat@, from as int) is None,
        },
{
    let n = s.unicode_len();
    let m = pat.unicode_len();
    if m == 0 {
        proof {
            assert(s@.subrange(from as int, from as int) =~= pat@);
        }
        return Some(from);
    }
    if m > n || from > n - m {
        return None;
    }
    let mut i = from;
    while i <= n - m
        invariant
            from <= i <= n - m + 1,
            1 <= m <= n,
            n == s@.len(),
            m == pat@.len(),
            spec_find(s@, pat@, from as int) == spec_find(s@, pat@, i as int),
        decreases n - i,
    {
        if match_at(s, pat, i) {
            return Some(i);
        }
        proof {
            assert(spec_find(s@, pat@, i as int) == spec_find(s@, pat@, i as int + 1));
        }
        i = i + 1;
    }
    None
}

/// Extracts the text between the first `open_tag` and the next
/// `close_tag` after it.
fn extract_field(region: &str, open_tag: &str, close_tag: &str) -> (r: Option<String>)
    ensures
        match spec_extract(region@, open_tag@, close_tag@) {
            Some(f) => r matches Some(x) && x@ == f,
            None => r is None,
        },
{
    let n = region.unicode_len();
    let o = match find_from(region, open_tag, 0) {
        Some(o) => o,
        None => {
            return None;
        },
    };
    proof {
        lemma_find_props(region@, open_tag@, 0);
        assert(o + open_tag@.len() <= n);
    }
    let start = o + open_tag.unicode_len();
    let c = match find_from(region, close_tag, start) {
        Some(c) => c,
        None => {
            return None;
        },
    };
    proof {
        lemma_find_props(region@, close_tag@, start as int);
    }
    Some(region.substring_char(start, c).to_owned())
}

/// Parses the stations of `doc` from position `from` on.
fn parse_stations_from(doc: &str, from: usize) -> (r: Result<Vec<Station>, RadikoError>)
    requires
        from <= doc@.len(),
    ensures
        match spec_parse_stations(doc@, from as int) {
            Some(fs) => r matches Ok(v) && spec_station_views(v@) == fs,
            None => r == Err::<Vec<Station>, RadikoError>(
                RadikoError::Protocol(ProtocolFault::MalformedCatalog),
            ),
        },
    decreases doc@.len() - from,
{
    proof {
        reveal_strlit("<station>");
        reveal_strlit("</station>");
    }
    let n = doc.unicode_len();
    let o = match find_from(doc, "<station>", from) {
        Some(o) => o,
        None => {
            let v: Vec<Station> = Vec::new();
            proof {
                assert(spec_station_views(v@) =~= Seq::<StationFields>::empty());
            }
            return Ok(v);
        },
    };
    proof {
        lemma_find_props(doc@, "<station>"@, from as int);
    }
    let body_start = o + 9;
    let c = match find_from(doc, "</station>", body_start) {
        Some(c) => c,
        None => {
            return Err(RadikoError::Protocol(ProtocolFault::MalformedCatalog));
        },
    };
    proof {
        lemma_find_props(doc@, "</station>"@, body_start as int);
    }
    let region = doc.substring_char(body_start, c);
    let id = match extract_field(region, "<id>", "</id>") {
        Some(x) => x,
        None => {
            return Err(RadikoError::Protocol(ProtocolFault::MalformedCatalog));
        },
    };
    let name = match extract_field(region, "<name>", "</name>") {
        Some(x) => x,
        None => {
            return Err(RadikoError::Protocol(ProtocolFault::MalformedCatalog));
        },
    };
    let ascii_name = match extract_field(region, "<ascii_name>", "</ascii_name>") {
        Some(x) => x,
        None => {
            return Err(RadikoError::Protocol(ProtocolFault::MalformedCatalog));
        },
    };
    let ruby = match extract_field(region, "<ruby>", "</ruby>") {
        Some(x) => x,
        None => {
            return Err(RadikoError::Protocol(ProtocolFault::MalformedCatalog));
        },
    };
    let mut rest = match parse_stations_from(doc, c + 10) {
        Ok(v) => v,
        Err(e) => {
            return Err(e);
        },
    };
    let ghost rest_views = spec_station_views(rest@);
    let station = Station {
        id: decode_entities(id.as_str()),
        name: decode_entities(name.as_str()),
        ascii_name: decode_entities(ascii_name.as_str()),
        ruby: decode_entities(ruby.as_str()),
    };
    let ghost head = (StationFields {
        id: station.id@,
        name: station.name@,
        ascii_name: station.ascii_name@,
        ruby: station.ruby@,
    });
    rest.insert(0, station);
    proof {
        assert(spec_station_views(rest@) =~= seq![head] + rest_views);
    }
    Ok(rest)
}

/// Parses a station-directory document: the repeated `station` elements
/// in document order, each yielding its four fields with entity
/// references decoded. An incomplete element makes the document
/// malformed, and so does a document carrying no station element at
/// all: a transport error page or a changed root is an error, never a
/// silently empty catalog.
pub fn parse_station_list(doc: &str) -> (r: Result<Vec<Station>, RadikoError>)
    ensures
        match spec_parse_stations(doc@, 0) {
            Some(fs) => if fs.len() == 0 {
                r == Err::<Vec<Station>, RadikoError>(
                    RadikoError::Protocol(ProtocolFault::MalformedCatalog),
                )
            } else {
                r matches Ok(v) && spec_station_views(v@) == fs
            },
            None => r == Err::<Vec<Station>, RadikoError>(
                RadikoError::Protocol(ProtocolFault::MalformedCatalog),
            ),
        },
{
    let stations = match parse_stations_from(doc, 0) {
        Ok(v) => v,
        Err(e) => {
            return Err(e);
        },
    };
    if stations.len() == 0 {
        return Err(RadikoError::Protocol(ProtocolFault::MalformedCatalog));
    }
    Ok(stations)
}

} // verus!
