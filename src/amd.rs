//! The vendor whose tool prints one JSON document, with a map of cards keyed by
//! device index and every field a string.

use vstd::prelude::*;
use crate::number::{digits_value, is_digit, parse_u32_or_zero, u32_or_zero, unsigned_digits};
use crate::record::DeviceRecord;
use crate::text::{
    chars_of, split_chars, split_on, trim, trim_chars, trim_end, trim_start, lemma_split_on_one_sep,
};

verus! {

#[verifier::external_type_specification]
#[verifier::external_body]
pub struct ExJsonValue(serde_json::Value);

#[verifier::external_type_specification]
#[verifier::external_body]
#[verifier::reject_recursive_types(K)]
#[verifier::reject_recursive_types(V)]
pub struct ExJsonMap<K, V>(serde_json::Map<K, V>);

/// The document that `serde_json::from_str` reads from a text, `None` where the
/// text is not one JSON value.
pub uninterp spec fn json_doc_of(s: Seq<char>) -> Option<serde_json::Value>;

/// The member `key` of a JSON object, `None` where the value is no object or has
/// no such member.
pub uninterp spec fn json_member_of(v: serde_json::Value, key: Seq<char>) -> Option<serde_json::Value>;

/// The map of a JSON object, `None` where the value is no object.
pub uninterp spec fn json_object_of(v: serde_json::Value) -> Option<serde_json::Map<String, serde_json::Value>>;

/// The entries of a JSON map, keys as text, in the map's own order.
pub uninterp spec fn json_entries_of(m: serde_json::Map<String, serde_json::Value>) -> Seq<(Seq<char>, serde_json::Value)>;

/// The text of a JSON string, `None` where the value is no string.
pub uninterp spec fn json_str_of(v: serde_json::Value) -> Option<Seq<char>>;

/// Relies on `serde_json::from_str`: the document, or `None` where the text is
/// not one JSON value; the result depends on the text alone.
#[verifier::external_body]
fn parse_json(s: &str) -> (r: Option<serde_json::Value>)
    ensures
        r == json_doc_of(s@),
{
    serde_json::from_str::<serde_json::Value>(s).ok()
}

/// Relies on `serde_json::Value::get` with a string index: the member `key` of an
/// object, `None` where `v` is no object or has no such member.
#[verifier::external_body]
fn member(v: &serde_json::Value, key: &str) -> (r: Option<serde_json::Value>)
    ensures
        r == json_member_of(*v, key@),
{
    v.get(key).cloned()
}

/// Relies on `serde_json::Value::as_object`: the map of an object, `None` where
/// `v` is no object.
#[verifier::external_body]
fn as_object(v: &serde_json::Value) -> (r: Option<serde_json::Map<String, serde_json::Value>>)
    ensures
        r == json_object_of(*v),
{
    v.as_object().cloned()
}

/// Relies on `serde_json::Map::iter`: the entries of the map, in its own order
/// (sorted by key, as the crate is built here).
#[verifier::external_body]
fn map_entries(m: &serde_json::Map<String, serde_json::Value>) -> (r: Vec<(String, serde_json::Value)>)
    ensures
        r@.map_values(|e: (String, serde_json::Value)| (e.0@, e.1)) == json_entries_of(*m),
{
    m.iter().map(|(k, e)| (k.clone(), e.clone())).collect()
}

/// Relies on `serde_json::Value::as_str`: the text of a JSON string, `None` where
/// `v` is no string.
#[verifier::external_body]
fn string_value(v: &serde_json::Value) -> (r: Option<String>)
    ensures
        opt_text(r) == json_str_of(*v),
{
    v.as_str().map(|s| s.to_string())
}

/// The text of an optional string.
pub open spec fn opt_text(o: Option<String>) -> Option<Seq<char>> {
    match o {
        Some(s) => Some(s@),
        None => None,
    }
}

/// The fields that are read of one card entry: its key, and each named member
/// that is present and a string.
#[derive(Clone, Debug, PartialEq, Eq)]
pub struct AmdCardFields {
    pub key: String,
    /// `"Card series"`
    pub card_series: Option<String>,
    /// `"GPU use (%)"`
    pub gpu_use: Option<String>,
    /// `"GPU Memory Usage (MB)"`, of the form `"<used> / <total>"`
    pub memory_usage: Option<String>,
    /// `"Temperature (Sensor edge) (C)"`
    pub edge_temperature: Option<String>,
}

/// The text of the fields of a card entry.
pub struct AmdCard {
    pub key: Seq<char>,
    pub card_series: Option<Seq<char>>,
    pub gpu_use: Option<Seq<char>>,
    pub memory_usage: Option<Seq<char>>,
    pub edge_temperature: Option<Seq<char>>,
}

impl View for AmdCardFields {
    type V = AmdCard;

    open spec fn view(&self) -> AmdCard {
        AmdCard {
            key: self.key@,
            card_series: opt_text(self.card_series),
            gpu_use: opt_text(self.gpu_use),
            memory_usage: opt_text(self.memory_usage),
            edge_temperature: opt_text(self.edge_temperature),
        }
    }
}

pub open spec fn cards_view(cards: Seq<AmdCardFields>) -> Seq<AmdCard> {
    cards.map_values(|c: AmdCardFields| c@)
}

/// The text of the member `key` of an object, where it is present and a string.
pub open spec fn string_member_of(v: serde_json::Value, key: Seq<char>) -> Option<Seq<char>> {
    match json_member_of(v, key) {
        Some(m) => json_str_of(m),
        None => None,
    }
}

/// The card read from one entry of the `"card"` object.
pub open spec fn card_of_entry(key: Seq<char>, info: serde_json::Value) -> AmdCard {
    AmdCard {
        key,
        card_series: string_member_of(info, "Card series"@),
        gpu_use: string_member_of(info, "GPU use (%)"@),
        memory_usage: string_member_of(info, "GPU Memory Usage (MB)"@),
        edge_temperature: string_member_of(info, "Temperature (Sensor edge) (C)"@),
    }
}

/// The cards of the tool's output: one per entry of the document's `"card"`
/// object, in the map's order; none where the text is not JSON, or has no such
/// member, or the member is no object.
pub open spec fn amd_cards_of(raw: Seq<char>) -> Seq<AmdCard> {
    match json_doc_of(raw) {
        None => Seq::empty(),
        Some(doc) => match json_member_of(doc, "card"@) {
            None => Seq::empty(),
            Some(table) => match json_object_of(table) {
                None => Seq::empty(),
                Some(m) => json_entries_of(m).map_values(
                    |e: (Seq<char>, serde_json::Value)| card_of_entry(e.0, e.1),
                ),
            },
        },
    }
}

pub open spec fn u32_field_or_zero(f: Option<Seq<char>>) -> u32 {
    match f {
        Some(s) => u32_or_zero(s),
        None => 0,
    }
}

/// The used memory of a combined memory field: its text before the first `/`.
pub open spec fn memory_used_of(f: Option<Seq<char>>) -> u32 {
    match f {
        Some(s) => u32_or_zero(trim(split_on(s, '/')[0])),
        None => 0,
    }
}

/// The total memory of a combined memory field: its text between the first and
/// a second `/`, 0 where it has no `/`.
pub open spec fn memory_total_of(f: Option<Seq<char>>) -> u32 {
    match f {
        Some(s) => if split_on(s, '/').len() > 1 {
            u32_or_zero(trim(split_on(s, '/')[1]))
        } else {
            0
        },
        None => 0,
    }
}

/// `r` is the device record of card `c`: fields that are missing or not numbers
/// read as 0, a missing name as `"Unknown AMD GPU"`. Memory is reported in
/// decimal megabytes already and is not converted.
pub open spec fn amd_device_matches(r: DeviceRecord, c: AmdCard) -> bool {
    &&& r.index == u32_or_zero(c.key)
    &&& r.name@ == (match c.card_series {
        Some(s) => s,
        None => "Unknown AMD GPU"@,
    })
    &&& r.gpu_utilization_percent == u32_field_or_zero(c.gpu_use)
    &&& r.gpu_memory_used_mb == memory_used_of(c.memory_usage)
    &&& r.gpu_memory_total_mb == memory_total_of(c.memory_usage)
    &&& r.temperature_celsius == Some(u32_field_or_zero(c.edge_temperature))
    &&& r.power_draw is None
    &&& r.clock_sm_mhz is None
    &&& r.clock_mem_mhz is None
    &&& r.clock_graphics_mhz is None
    &&& r.pcie_gen is None
    &&& r.pcie_width is None
    &&& r.up
}

/// The device records of a list of cards, one each, in order.
pub open spec fn amd_devices_match(r: Seq<DeviceRecord>, cards: Seq<AmdCard>) -> bool {
    &&& r.len() == cards.len()
    &&& forall|j: int| 0 <= j < r.len() ==> amd_device_matches(#[trigger] r[j], cards[j])
}

fn u32_of_field(f: &Option<String>) -> (r: u32)
    ensures
        r == u32_field_or_zero(opt_text(*f)),
{
    match f {
        Some(s) => {
            let c = chars_of(s.as_str());
            parse_u32_or_zero(c.as_slice())
        },
        None => 0,
    }
}

/// The used and total memory of a combined memory field.
pub fn memory_of(f: &Option<String>) -> (r: (u32, u32))
    ensures
        r.0 == memory_used_of(opt_text(*f)),
        r.1 == memory_total_of(opt_text(*f)),
{
    match f {
        Some(s) => {
            let c = chars_of(s.as_str());
            let parts = split_chars(c.as_slice(), '/');
            proof {
                crate::text::lemma_split_on_nonempty(s@, '/');
            }
            let ghost pv = parts@.map_values(|v: Vec<char>| v@);
            assert(pv[0] == parts@[0]@);
            let used = parse_u32_or_zero(trim_chars(parts[0].as_slice()).as_slice());
            let total = if parts.len() > 1 {
                assert(pv[1] == parts@[1]@);
                parse_u32_or_zero(trim_chars(parts[1].as_slice()).as_slice())
            } else {
                0
            };
            (used, total)
        },
        None => (0, 0),
    }
}

/// The device record of one card.
pub fn amd_device_from_fields(c: &AmdCardFields) -> (r: DeviceRecord)
    ensures
        amd_device_matches(r, c@),
{
    let key_chars = chars_of(c.key.as_str());
    let name = match &c.card_series {
        Some(s) => s.clone(),
        None => "Unknown AMD GPU".to_owned(),
    };
    let (used, total) = memory_of(&c.memory_usage);
    DeviceRecord {
        index: parse_u32_or_zero(key_chars.as_slice()),
        name,
        gpu_utilization_percent: u32_of_field(&c.gpu_use),
        gpu_memory_used_mb: used,
        gpu_memory_total_mb: total,
        power_draw: None,
        temperature_celsius: Some(u32_of_field(&c.edge_temperature)),
        clock_sm_mhz: None,
        clock_mem_mhz: None,
        clock_graphics_mhz: None,
        pcie_gen: None,
        pcie_width: None,
        up: true,
    }
}

/// The device records of a list of cards, one each, in order.
pub fn devices_from_amd_cards(cards: &Vec<AmdCardFields>) -> (r: Vec<DeviceRecord>)
    ensures
        amd_devices_match(r@, cards_view(cards@)),
{
    let mut r: Vec<DeviceRecord> = Vec::new();
    let mut i: usize = 0;
    while i < cards.len()
        invariant
            i <= cards@.len(),
            r@.len() == i,
            forall|j: int| 0 <= j < i ==> amd_device_matches(#[trigger] r@[j], cards@[j]@),
        decreases cards@.len() - i,
    {
        r.push(amd_device_from_fields(&cards[i]));
        i = i + 1;
    }
    r
}

fn string_member(v: &serde_json::Value, key: &str) -> (r: Option<String>)
    ensures
        opt_text(r) == string_member_of(*v, key@),
{
    match member(v, key) {
        Some(m) => string_value(&m),
        None => None,
    }
}

/// The cards of the tool's JSON document: the entries of its `"card"` object, in
/// the order the document's map gives them. A text that is not JSON, or has no
/// such object, has no cards.
pub fn amd_cards_from_json(raw: &str) -> (r: Vec<AmdCardFields>)
    ensures
        cards_view(r@) == amd_cards_of(raw@),
{
    let mut cards: Vec<AmdCardFields> = Vec::new();
    let doc = match parse_json(raw) {
        Some(d) => d,
        None => {
            assert(cards_view(cards@) =~= amd_cards_of(raw@));
            return cards;
        },
    };
    let table = match member(&doc, "card") {
        Some(t) => t,
        None => {
            assert(cards_view(cards@) =~= amd_cards_of(raw@));
            return cards;
        },
    };
    let m = match as_object(&table) {
        Some(m) => m,
        None => {
            assert(cards_view(cards@) =~= amd_cards_of(raw@));
            return cards;
        },
    };
    let entries = map_entries(&m);
    let ghost ev = json_entries_of(m);
    let ghost want = ev.map_values(|e: (Seq<char>, serde_json::Value)| card_of_entry(e.0, e.1));
    assert(want == amd_cards_of(raw@));
    let mut i: usize = 0;
    while i < entries.len()
        invariant
            i <= entries@.len(),
            entries@.map_values(|e: (String, serde_json::Value)| (e.0@, e.1)) == ev,
            want == ev.map_values(|e: (Seq<char>, serde_json::Value)| card_of_entry(e.0, e.1)),
            cards_view(cards@) =~= want.take(i as int),
        decreases entries@.len() - i,
    {
        let info = &entries[i].1;
        assert(ev[i as int] == (entries@[i as int].0@, entries@[i as int].1));
        let c = AmdCardFields {
            key: entries[i].0.clone(),
            card_series: string_member(info, "Card series"),
            gpu_use: string_member(info, "GPU use (%)"),
            memory_usage: string_member(info, "GPU Memory Usage (MB)"),
            edge_temperature: string_member(info, "Temperature (Sensor edge) (C)"),
        };
        assert(c@ == want[i as int]);
        let ghost before = cards@;
        let ghost cv = c@;
        assert(before.len() == cards_view(before).len());
        cards.push(c);
        assert(cards@.len() == i + 1);
        assert(cards@[i as int]@ == cv);
        assert(forall|k: int| 0 <= k < i ==> cards@[k] == before[k]);
        assert(cards_view(cards@) =~= cards_view(before).push(cv));
        assert(want.take(i + 1) =~= want.take(i as int).push(want[i as int]));
        i = i + 1;
    }
    assert(want.take(i as int) =~= want);
    cards
}

/// The device records of the tool's output: one for each entry of the document's
/// `"card"` object, in order; none where it cannot be read.
pub fn parse_amd_output(raw: &str) -> (r: Vec<DeviceRecord>)
    ensures
        amd_devices_match(r@, amd_cards_of(raw@)),
{
    let cards = amd_cards_from_json(raw);
    devices_from_amd_cards(&cards)
}

} // verus!

verus! {

/// A card without the combined memory field reads as 0 used and 0 total.
pub proof fn lemma_missing_memory_reads_zero(c: AmdCard, r: DeviceRecord)
    requires
        c.memory_usage is None,
        amd_device_matches(r, c),
    ensures
        r.gpu_memory_used_mb == 0,
        r.gpu_memory_total_mb == 0,
{
}

} // verus!

verus! {

pub open spec fn all_digits(s: Seq<char>) -> bool {
    forall|i: int| 0 <= i < s.len() ==> is_digit(#[trigger] s[i])
}

proof fn lemma_digits_without(s: Seq<char>, c: char)
    requires
        all_digits(s),
        !is_digit(c),
    ensures
        !s.contains(c),
{
    if s.contains(c) {
        let k = choose|k: int| 0 <= k < s.len() && s[k] == c;
        assert(is_digit(s[k]));
    }
}

proof fn lemma_digits_read(s: Seq<char>)
    requires
        s.len() > 0,
        all_digits(s),
        digits_value(s) <= u32::MAX,
    ensures
        u32_or_zero(s) == digits_value(s),
{
    assert(is_digit(s[0]));
    assert(unsigned_digits(s) == s);
}

/// A memory field `"<used> / <total>"`, both decimal numbers that fit in 32 bits,
/// reads as that used and that total memory.
pub proof fn lemma_memory_field_split(used: Seq<char>, total: Seq<char>)
    requires
        used.len() > 0,
        total.len() > 0,
        all_digits(used),
        all_digits(total),
        digits_value(used) <= u32::MAX,
        digits_value(total) <= u32::MAX,
    ensures
        memory_used_of(Some(used + seq![' ', '/', ' '] + total)) == digits_value(used),
        memory_total_of(Some(used + seq![' ', '/', ' '] + total)) == digits_value(total),
{
    let a = used.push(' ');
    let b = seq![' '] + total;
    let text = used + seq![' ', '/', ' '] + total;
    assert(text =~= a.push('/') + b);
    lemma_digits_without(used, '/');
    lemma_digits_without(total, '/');
    assert(!a.contains('/')) by {
        if a.contains('/') {
            let k = choose|k: int| 0 <= k < a.len() && a[k] == '/';
            assert(k < used.len());
            assert(used[k] == '/');
        }
    }
    assert(!b.contains('/')) by {
        if b.contains('/') {
            let k = choose|k: int| 0 <= k < b.len() && b[k] == '/';
            assert(k > 0);
            assert(total[k - 1] == '/');
        }
    }
    lemma_split_on_one_sep(a, b, '/');
    assert(split_on(text, '/') == seq![a, b]);
    assert(is_digit(a[0]));
    assert(trim_start(a) == a);
    assert(a.drop_last() =~= used);
    assert(is_digit(used.last())) by {
        assert(used[used.len() - 1] == used.last());
    }
    assert(trim_end(used) == used);
    assert(trim_end(a) == used);
    assert(b.drop_first() =~= total);
    assert(is_digit(total[0]));
    assert(trim_start(total) == total);
    assert(trim_start(b) == total);
    assert(is_digit(total.last())) by {
        assert(total[total.len() - 1] == total.last());
    }
    assert(trim_end(total) == total);
    lemma_digits_read(used);
    lemma_digits_read(total);
}

} // verus!
