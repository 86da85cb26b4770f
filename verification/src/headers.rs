//! HTTP header names, values and maps.
//!
//! The header map itself is `reqwest`'s. Its contents are modelled as a map
//! from canonical (lower-case) names to the values held under each name, and
//! the few operations the client needs are given contracts over that model.

use reqwest::header::HeaderMap;
use reqwest::header::HeaderName;
use reqwest::header::HeaderValue;
use crate::codec::string_from_utf8;
use vstd::prelude::*;
use vstd::slice::slice_to_vec;
use vstd::utf8::encode_utf8;
use vstd::utf8::encode_utf8_decode_utf8;
use vstd::utf8::encode_utf8_valid_utf8;
use vstd::utf8::is_ascii_chars;
use vstd::utf8::is_ascii_chars_encode_utf8;

verus! {

/// `reqwest::header::HeaderValue`, known only as what a header map holds.
#[verifier::external_type_specification]
#[verifier::external_body]
pub struct ExHeaderValue(HeaderValue);

/// `reqwest::header::HeaderMap`, known by `header_entries` and
/// `header_map_has_room`.
#[verifier::external_type_specification]
#[verifier::external_body]
#[verifier::reject_recursive_types(T)]
pub struct ExHeaderMap<T>(HeaderMap<T>);

/// The longest header name, in bytes.
pub const MAX_HEADER_NAME_LEN: usize = 65535;

/// The values held under each canonical header name, oldest first.
pub uninterp spec fn header_entries(map: HeaderMap<HeaderValue>) -> Map<Seq<char>, Seq<Seq<u8>>>;

/// Whether the map accepts one more insertion. A map has a size limit, and
/// decides by its own state, before it looks at the name, whether there is
/// room for an insertion.
pub uninterp spec fn header_map_has_room(map: HeaderMap<HeaderValue>) -> bool;

/// The contents of a map that holds no header.
pub open spec fn no_headers() -> Map<Seq<char>, Seq<Seq<u8>>> {
    Map::empty()
}

/// The values held under `name`, none if the name is absent.
pub open spec fn values_in(entries: Map<Seq<char>, Seq<Seq<u8>>>, name: Seq<char>) -> Seq<Seq<u8>> {
    if entries.dom().contains(name) {
        entries[name]
    } else {
        Seq::empty()
    }
}

/// A character allowed in a header name (an HTTP token character).
pub open spec fn is_token_char(c: char) -> bool {
    let n = c as u32;
    ||| 97 <= n <= 122
    ||| 65 <= n <= 90
    ||| 48 <= n <= 57
    ||| n == 33
    ||| 35 <= n <= 39
    ||| n == 42
    ||| n == 43
    ||| n == 45
    ||| n == 46
    ||| 94 <= n <= 96
    ||| n == 124
    ||| n == 126
}

/// A well-formed header name: a non-empty token of bounded length.
pub open spec fn is_header_name(name: Seq<char>) -> bool {
    &&& 0 < name.len() <= MAX_HEADER_NAME_LEN
    &&& forall|i: int| 0 <= i < name.len() ==> is_token_char(#[trigger] name[i])
}

/// The lower-case form of an upper-case ASCII letter; any other character itself.
pub open spec fn canonical_char(c: char) -> char {
    if 65 <= c as u32 <= 90 {
        ((c as u8 + 32) as u8) as char
    } else {
        c
    }
}

/// The form under which a map files a name: ASCII letters in lower case.
pub open spec fn canonical_name(name: Seq<char>) -> Seq<char> {
    name.map_values(|c: char| canonical_char(c))
}

/// A byte allowed in a header value: anything but a control character other than tab.
pub open spec fn is_value_byte(b: u8) -> bool {
    (b >= 32 && b != 127) || b == 9
}

/// A well-formed header value.
pub open spec fn is_header_value(value: Seq<u8>) -> bool {
    forall|i: int| 0 <= i < value.len() ==> is_value_byte(#[trigger] value[i])
}

/// A byte of visible ASCII, or tab.
pub open spec fn is_visible_byte(b: u8) -> bool {
    (32 <= b < 127) || b == 9
}

/// A value made of visible ASCII only, which therefore reads as text.
pub open spec fn is_visible_value(value: Seq<u8>) -> bool {
    forall|i: int| 0 <= i < value.len() ==> is_visible_byte(#[trigger] value[i])
}

/// The text that a value of visible ASCII spells.
pub open spec fn ascii_text(value: Seq<u8>) -> Seq<char> {
    value.map_values(|b: u8| b as char)
}

/// One header as it travels: a canonical name and the bytes of its value.
#[derive(Debug, Clone, PartialEq, Eq)]
pub struct Header {
    pub name: String,
    pub value: Vec<u8>,
}

impl View for Header {
    type V = (Seq<char>, Seq<u8>);

    open spec fn view(&self) -> (Seq<char>, Seq<u8>) {
        (self.name@, self.value@)
    }
}

/// The headers of a list, each by its view.
pub open spec fn header_seq(list: Seq<Header>) -> Seq<(Seq<char>, Seq<u8>)> {
    list.map_values(|h: Header| h@)
}

/// The values that a list gives for `name`, in list order.
pub open spec fn values_of(items: Seq<(Seq<char>, Seq<u8>)>, name: Seq<char>) -> Seq<Seq<u8>>
    decreases items.len(),
{
    if items.len() == 0 {
        Seq::empty()
    } else if items.last().0 == name {
        values_of(items.drop_last(), name).push(items.last().1)
    } else {
        values_of(items.drop_last(), name)
    }
}

/// `HeaderMap::new`: the fresh map holds nothing and accepts an insertion.
#[verifier::external_body]
pub(crate) fn new_header_map() -> (r: HeaderMap<HeaderValue>)
    ensures
        header_entries(r) == no_headers(),
        header_map_has_room(r),
{
    HeaderMap::new()
}

/// `HeaderName::from_bytes` on the bytes of `name`: it accepts exactly the
/// non-empty tokens of at most `MAX_HEADER_NAME_LEN` bytes.
#[verifier::external_body]
pub(crate) fn header_name_ok(name: &str) -> (r: bool)
    ensures
        r == is_header_name(name@),
{
    HeaderName::from_bytes(name.as_bytes()).is_ok()
}

/// `HeaderValue::from_bytes`: it accepts exactly the byte strings free of
/// control characters other than tab.
#[verifier::external_body]
pub(crate) fn header_value_ok(value: &[u8]) -> (r: bool)
    ensures
        r == is_header_value(value@),
{
    HeaderValue::from_bytes(value).is_ok()
}

/// `HeaderMap::try_insert` of a name and a value that `HeaderName::from_bytes`
/// and `HeaderValue::from_bytes` accept. It fails only for want of room and
/// then leaves the map as it was; otherwise `value` becomes the single
/// value under the canonical form of `name`.
#[verifier::external_body]
pub(crate) fn try_insert_header(map: &mut HeaderMap<HeaderValue>, name: &str, value: &[u8]) -> (r: bool)
    requires
        is_header_name(name@),
        is_header_value(value@),
    ensures
        r == header_map_has_room(*old(map)),
        r ==> header_entries(*final(map)) == header_entries(*old(map)).insert(
            canonical_name(name@),
            seq![value@],
        ),
        !r ==> header_entries(*final(map)) == header_entries(*old(map)),
{
    match (HeaderName::from_bytes(name.as_bytes()), HeaderValue::from_bytes(value)) {
        (Ok(name), Ok(value)) => map.try_insert(name, value).is_ok(),
        _ => false,
    }
}

/// `HeaderMap::get` by a name given as text: the first value held under the
/// canonical form of `name`, if `name` is well-formed and present. A name
/// that is present holds at least one value.
#[verifier::external_body]
pub(crate) fn first_header_value(map: &HeaderMap<HeaderValue>, name: &str) -> (r: Option<Vec<u8>>)
    ensures
        match r {
            Some(value) => is_header_name(name@) && values_in(
                header_entries(*map),
                canonical_name(name@),
            ).len() > 0 && value@ == header_entries(*map)[canonical_name(name@)][0],
            None => !is_header_name(name@) || !header_entries(*map).dom().contains(
                canonical_name(name@),
            ),
        },
{
    map.get(name).map(|value| value.as_bytes().to_vec())
}

/// `HeaderMap::iter`: every value of the map, those of one name in the order
/// the map holds them.
#[verifier::external_body]
pub(crate) fn header_list(map: &HeaderMap<HeaderValue>) -> (r: Vec<Header>)
    ensures
        forall|name: Seq<char>| #[trigger]
            values_of(header_seq(r@), name) == values_in(header_entries(*map), name),
{
    let mut list = Vec::new();
    for (name, value) in map.iter() {
        list.push(Header { name: name.as_str().to_string(), value: value.as_bytes().to_vec() });
    }
    list
}

/// What a map holds after `value` was set under `key`: with a well-formed
/// name and value, and room in the map, `value` alone under the canonical
/// name; otherwise what it held before.
pub open spec fn with_header(
    entries: Map<Seq<char>, Seq<Seq<u8>>>,
    room: bool,
    key: Seq<char>,
    value: Seq<u8>,
) -> Map<Seq<char>, Seq<Seq<u8>>> {
    if is_header_name(key) && is_header_value(value) && room {
        entries.insert(canonical_name(key), seq![value])
    } else {
        entries
    }
}

/// The text of the first value held under `name`, where the name is
/// well-formed and present and that value is visible ASCII.
pub open spec fn text_in(entries: Map<Seq<char>, Seq<Seq<u8>>>, name: Seq<char>) -> Option<Seq<char>> {
    if is_header_name(name) && entries.dom().contains(canonical_name(name)) && is_visible_value(
        entries[canonical_name(name)][0],
    ) {
        Some(ascii_text(entries[canonical_name(name)][0]))
    } else {
        None
    }
}

/// What `over` laid on `base` gives for one name: the values of `over` where
/// it has any, else those of `base`.
pub open spec fn overlaid(base: Seq<Seq<u8>>, over: Seq<Seq<u8>>) -> Seq<Seq<u8>> {
    if over.len() > 0 {
        over
    } else {
        base
    }
}

/// The values of a list are those of its parts, one after the other.
pub proof fn lemma_values_of_concat(
    a: Seq<(Seq<char>, Seq<u8>)>,
    b: Seq<(Seq<char>, Seq<u8>)>,
    name: Seq<char>,
)
    ensures
        values_of(a + b, name) == values_of(a, name) + values_of(b, name),
    decreases b.len(),
{
    if b.len() == 0 {
        assert(a + b == a);
    } else {
        assert((a + b).drop_last() == a + b.drop_last());
        lemma_values_of_concat(a, b.drop_last(), name);
    }
}

/// A list gives values for a name exactly when one of its headers bears it.
pub proof fn lemma_values_of_occurs(items: Seq<(Seq<char>, Seq<u8>)>, name: Seq<char>)
    ensures
        values_of(items, name).len() > 0 <==> exists|i: int|
            0 <= i < items.len() && (#[trigger] items[i]).0 == name,
    decreases items.len(),
{
    if items.len() > 0 {
        lemma_values_of_occurs(items.drop_last(), name);
        if items.last().0 == name {
            assert(items[items.len() - 1].0 == name);
        } else if values_of(items, name).len() > 0 {
            let i = choose|i: int|
                0 <= i < items.drop_last().len() && (#[trigger] items.drop_last()[i]).0 == name;
            assert(items[i].0 == name);
        } else if exists|i: int| 0 <= i < items.len() && (#[trigger] items[i]).0 == name {
            let i = choose|i: int| 0 <= i < items.len() && (#[trigger] items[i]).0 == name;
            assert(items.drop_last()[i].0 == name);
        }
    }
}

/// A list that bears a name once gives the one value under it.
pub proof fn lemma_values_of_single(items: Seq<(Seq<char>, Seq<u8>)>, at: int, name: Seq<char>)
    requires
        0 <= at < items.len(),
        items[at].0 == name,
        forall|j: int| 0 <= j < items.len() && j != at ==> (#[trigger] items[j]).0 != name,
    ensures
        values_of(items, name) == seq![items[at].1],
    decreases items.len(),
{
    let rest = items.drop_last();
    if at == items.len() - 1 {
        assert(values_of(rest, name).len() == 0) by {
            lemma_values_of_occurs(rest, name);
            if exists|i: int| 0 <= i < rest.len() && (#[trigger] rest[i]).0 == name {
                let i = choose|i: int| 0 <= i < rest.len() && (#[trigger] rest[i]).0 == name;
                assert(items[i].0 == name);
            }
        }
        assert(values_of(items, name) == Seq::<Seq<u8>>::empty().push(items[at].1));
    } else {
        assert forall|j: int| 0 <= j < rest.len() && j != at implies (#[trigger] rest[j]).0
            != name by {
            assert(items[j].0 != name);
        }
        assert(items[items.len() - 1].0 != name);
        lemma_values_of_single(rest, at, name);
    }
}

/// Setting a header with an ill-formed name or value changes nothing.
pub proof fn lemma_invalid_header_ignored(
    entries: Map<Seq<char>, Seq<Seq<u8>>>,
    room: bool,
    key: Seq<char>,
    value: Seq<u8>,
)
    requires
        !is_header_name(key) || !is_header_value(value),
    ensures
        with_header(entries, room, key, value) == entries,
{
}

/// Setting a header leaves every other name as it was.
pub proof fn lemma_header_set_leaves_others(
    entries: Map<Seq<char>, Seq<Seq<u8>>>,
    room: bool,
    key: Seq<char>,
    value: Seq<u8>,
    other: Seq<char>,
)
    requires
        other != canonical_name(key),
    ensures
        values_in(with_header(entries, room, key, value), other) == values_in(entries, other),
{
}

/// Setting a name twice, in whatever case it is written, keeps only the
/// newest value.
pub proof fn lemma_header_reset_keeps_newest(
    entries: Map<Seq<char>, Seq<Seq<u8>>>,
    first_key: Seq<char>,
    first_value: Seq<u8>,
    second_key: Seq<char>,
    second_value: Seq<u8>,
)
    requires
        is_header_name(first_key),
        is_header_name(second_key),
        canonical_name(first_key) == canonical_name(second_key),
        is_header_value(first_value),
        is_header_value(second_value),
    ensures
        values_in(
            with_header(
                with_header(entries, true, first_key, first_value),
                true,
                second_key,
                second_value,
            ),
            canonical_name(first_key),
        ) == seq![second_value],
{
}

/// Reads a header value as text, as far as it is visible ASCII.
pub fn visible_text(value: &[u8]) -> (r: Option<String>)
    ensures
        r.deep_view() == if is_visible_value(value@) {
            Some(ascii_text(value@))
        } else {
            None
        },
{
    let mut i: usize = 0;
    while i < value.len()
        invariant
            i <= value.len(),
            forall|j: int| 0 <= j < i ==> is_visible_byte(#[trigger] value@[j]),
        decreases value.len() - i,
    {
        let b: u8 = value[i];
        if !((32 <= b && b < 127) || b == 9) {
            return None;
        }
        i += 1;
    }
    let ghost text = ascii_text(value@);
    proof {
        assert(is_ascii_chars(text)) by {
            assert forall|j: int| 0 <= j < text.len() implies (text[j] as nat) < 128 by {
                assert(is_visible_byte(value@[j]));
            }
        }
        is_ascii_chars_encode_utf8(text);
        assert(encode_utf8(text) == value@) by {
            assert forall|j: int| 0 <= j < text.len() implies text[j] as u8 == value@[j] by {
                assert(is_visible_byte(value@[j]));
            }
        }
        encode_utf8_valid_utf8(text);
    }
    match string_from_utf8(slice_to_vec(value)) {
        Ok(read) => {
            proof {
                encode_utf8_decode_utf8(text);
                encode_utf8_decode_utf8(read@);
            }
            Some(read)
        },
        Err(_) => None,
    }
}

/// The text of the first value that a map holds under `name`.
pub fn header_text(map: &HeaderMap<HeaderValue>, name: &str) -> (r: Option<String>)
    ensures
        r.deep_view() == text_in(header_entries(*map), name@),
{
    match first_header_value(map, name) {
        Some(value) => visible_text(value.as_slice()),
        None => None,
    }
}

/// A copy of a header.
pub fn copy_header(header: &Header) -> (r: Header)
    ensures
        r@ == header@,
{
    Header { name: header.name.clone(), value: header.value.clone() }
}

/// Whether a list holds a header of the given name.
pub fn contains_name(list: &Vec<Header>, name: &String) -> (r: bool)
    ensures
        r == (values_of(header_seq(list@), name@).len() > 0),
{
    let mut i: usize = 0;
    while i < list.len()
        invariant
            i <= list.len(),
            values_of(header_seq(list@).take(i as int), name@).len() == 0,
        decreases list.len() - i,
    {
        proof {
            let next = header_seq(list@).take(i + 1);
            assert(next.drop_last() == header_seq(list@).take(i as int));
            assert(next.last() == list@[i as int]@);
            lemma_values_of_concat(next, header_seq(list@).skip(i + 1), name@);
            assert(next + header_seq(list@).skip(i + 1) == header_seq(list@));
        }
        if list[i].name == *name {
            return true;
        }
        i += 1;
    }
    assert(header_seq(list@).take(list.len() as int) == header_seq(list@));
    false
}

/// Lays `over` on `base`: the headers of `base` whose name `over` does not
/// bear, followed by those of `over`.
pub fn overlay(base: &Vec<Header>, over: &Vec<Header>) -> (r: Vec<Header>)
    ensures
        forall|name: Seq<char>| #[trigger]
            values_of(header_seq(r@), name) == overlaid(
                values_of(header_seq(base@), name),
                values_of(header_seq(over@), name),
            ),
{
    let mut out: Vec<Header> = Vec::new();
    let mut i: usize = 0;
    while i < base.len()
        invariant
            i <= base.len(),
            forall|name: Seq<char>| #[trigger]
                values_of(header_seq(out@), name) == if values_of(header_seq(over@), name).len()
                    > 0 {
                    Seq::<Seq<u8>>::empty()
                } else {
                    values_of(header_seq(base@).take(i as int), name)
                },
        decreases base.len() - i,
    {
        let ghost before = header_seq(out@);
        let ghost next = header_seq(base@).take(i + 1);
        assert(next.drop_last() == header_seq(base@).take(i as int));
        assert(next.last() == base@[i as int]@);
        if !contains_name(over, &base[i].name) {
            out.push(copy_header(&base[i]));
            assert(header_seq(out@).drop_last() == before);
            assert(header_seq(out@).last() == base@[i as int]@);
        }
        assert forall|name: Seq<char>| #[trigger]
            values_of(header_seq(out@), name) == if values_of(header_seq(over@), name).len()
                > 0 {
                Seq::<Seq<u8>>::empty()
            } else {
                values_of(next, name)
            } by {
            assert(values_of(before, name) == if values_of(header_seq(over@), name).len() > 0 {
                Seq::<Seq<u8>>::empty()
            } else {
                values_of(header_seq(base@).take(i as int), name)
            });
        }
        i += 1;
    }
    assert(header_seq(base@).take(base.len() as int) == header_seq(base@));
    let ghost kept = header_seq(out@);
    let mut j: usize = 0;
    while j < over.len()
        invariant
            j <= over.len(),
            forall|name: Seq<char>| #[trigger]
                values_of(header_seq(out@), name) == values_of(kept, name) + values_of(
                    header_seq(over@).take(j as int),
                    name,
                ),
        decreases over.len() - j,
    {
        let ghost before = header_seq(out@);
        let ghost next = header_seq(over@).take(j + 1);
        assert(next.drop_last() == header_seq(over@).take(j as int));
        assert(next.last() == over@[j as int]@);
        out.push(copy_header(&over[j]));
        assert(header_seq(out@).drop_last() == before);
        assert(header_seq(out@).last() == over@[j as int]@);
        assert forall|name: Seq<char>| #[trigger]
            values_of(header_seq(out@), name) == values_of(kept, name) + values_of(
                next,
                name,
            ) by {
            assert(values_of(before, name) == values_of(kept, name) + values_of(
                header_seq(over@).take(j as int),
                name,
            ));
        }
        j += 1;
    }
    assert(header_seq(over@).take(over.len() as int) == header_seq(over@));
    out
}

} // verus!
