use vstd::prelude::*;

use base64::Engine;
use std::io::Read;

use crate::call::CallCustom;
use crate::master::{copy_row, lookup, rows_view, str_eq, FieldsView, MasterRow};
use crate::text::{chars_of, push_char};
use crate::protocol::{hex_encode, hex_encoded, md5_compute, md5_digest};

verus! {

#[derive(Debug)]
pub struct MasterAll {
  pub masterversion: String,
  pub masterarray: Vec<MasterAllItem>,
  pub compressed: bool,
}

#[derive(Clone, Debug)]
pub struct MasterAllItem {
  pub master_key: String,
  pub master: String,
  pub checkkey: String,
  pub master_decompressed: String,
}

#[derive(Debug)]
pub struct GachaPriorityMasterItem {
  pub id: String,
  pub priority: String,
  pub start_at: String,
  pub end_at: String,
  pub gacha_id: String,
}

pub struct GachaMasterItem {
  pub gacha_id: String,
  pub name: String,
  pub description_text: String,
  pub enable: String,
  pub start_at: String,
  pub end_at: String,
  pub limit: String,
  pub limit_x: String,
  pub banner_url: String,
  pub movie: String,
  pub introduction_image: String,
  pub info_banner_url: String,
  pub gacha_info_url: String,
  pub other_tab_priority: String,
  pub footer_banner: String,
  pub footer_banner_order: String,
  pub limit_id: String,
  pub exchang_id: String,
  pub story: String,
  pub story_fes: String,
  pub ratio_text_pattern: String,
  pub exchang_bonus_id: String,
  pub exchang_name: String,
  pub always_display_flag: String,
  pub step_loop_count: String,
  pub result_bg: String,
  pub card_img_2: String,
  pub card_img_3: String,
  pub card_img_4: String,
  pub home_appeal_priority: String,
}

#[derive(Debug)]
pub struct MasterAllRequest {
  pub master_keys: Vec<String>,
}

impl CallCustom for MasterAll {}

// ------------------------------------------------------------------------------------------
// A master as the client downloads it
// ------------------------------------------------------------------------------------------

/// What `GzEncoder::new(bytes, Compression::fast())` of flate2 reads out: the gzip stream of
/// the bytes at the fast level.
pub uninterp spec fn gzip_fast(data: Seq<u8>) -> Seq<u8>;

/// What `BASE64_STANDARD.encode` gives for some bytes.
pub uninterp spec fn base64_standard_encoded(data: Seq<u8>) -> Seq<char>;

/// What `BASE64_STANDARD.decode` gives: the bytes of standard, padded base64 text, or `None`
/// where the text is not such base64.
pub uninterp spec fn base64_standard_decoded(text: Seq<u8>) -> Option<Seq<u8>>;

/// What `GzDecoder::new(data)` of flate2 reads out to the end: the bytes that the gzip
/// stream holds, or `None` where the data is not a gzip stream.
pub uninterp spec fn gunzipped(data: Seq<u8>) -> Option<Seq<u8>>;

/// `GzEncoder::new(data, Compression::fast())` of flate2, read to the end. Reading from a
/// byte slice does not fail. The stream is named; what is stated of it is that it unzips
/// back to the bytes.
#[verifier::external_body]
pub(crate) fn gzip_compress_fast(data: &[u8]) -> (r: Vec<u8>)
    ensures
        r@ == gzip_fast(data@),
        gunzipped(r@) == Some(data@),
{
    let mut encoder = flate2::bufread::GzEncoder::new(std::io::BufReader::new(data), flate2::Compression::fast());
    let mut compressed = Vec::new();
    encoder.read_to_end(&mut compressed).unwrap();
    compressed
}

/// `BASE64_STANDARD.encode` of the base64 crate. The text is named; what is stated of it is
/// that it decodes back to the bytes.
#[verifier::external_body]
pub(crate) fn base64_standard_encode(data: &[u8]) -> (r: String)
    ensures
        r@ == base64_standard_encoded(data@),
        base64_standard_decoded(vstd::utf8::encode_utf8(r@)) == Some(data@),
{
    base64::prelude::BASE64_STANDARD.encode(data)
}

/// `BASE64_STANDARD.decode` of the base64 crate. What it decodes is named, not stated.
#[verifier::external_body]
pub(crate) fn base64_standard_decode(text: &[u8]) -> (r: Option<Vec<u8>>)
    ensures
        r matches Some(v) ==> base64_standard_decoded(text@) == Some(v@),
        r is None ==> base64_standard_decoded(text@) is None,
{
    base64::prelude::BASE64_STANDARD.decode(text).ok()
}

/// `GzDecoder::new(data)` of flate2, read to the end. What it reads is named, not stated.
#[verifier::external_body]
pub(crate) fn gzip_decode(data: &[u8]) -> (r: Option<Vec<u8>>)
    ensures
        r matches Some(v) ==> gunzipped(data@) == Some(v@),
        r is None ==> gunzipped(data@) is None,
{
    let mut out = Vec::new();
    match flate2::read::GzDecoder::new(data).read_to_end(&mut out) {
        Ok(_) => Some(out),
        Err(_) => None,
    }
}

/// The bytes unzipped from the bytes, where there are bytes.
pub open spec fn gunzipped_opt(data: Option<Seq<u8>>) -> Option<Seq<u8>> {
    match data {
        Some(d) => gunzipped(d),
        None => None,
    }
}

impl MasterAllItem {
    /// A master as the client downloads it: its JSON gzipped and in base64, and the hex MD5
    /// of the JSON as its check key.
    pub fn new(master_key: String, master: String) -> (r: Self)
        ensures
            r.master_key@ == master_key@,
            r.master@ == base64_standard_encoded(gzip_fast(vstd::utf8::encode_utf8(master@))),
            r.checkkey@ == hex_encoded(md5_digest(vstd::utf8::encode_utf8(master@))),
            r.master_decompressed@ == master@,
            gunzipped_opt(base64_standard_decoded(vstd::utf8::encode_utf8(r.master@))) == Some(vstd::utf8::encode_utf8(master@)),
    {
        let digest = md5_compute(master.as_str().as_bytes());
        let compressed = gzip_compress_fast(master.as_str().as_bytes());
        Self {
            master_key,
            master: base64_standard_encode(compressed.as_slice()),
            checkkey: hex_encode(digest.as_slice()),
            master_decompressed: master,
        }
    }

    /// A copy of the item.
    pub fn duplicate(&self) -> (r: Self)
        ensures
            r.master_key@ == self.master_key@,
            r.master@ == self.master@,
            r.checkkey@ == self.checkkey@,
            r.master_decompressed@ == self.master_decompressed@,
    {
        Self {
            master_key: self.master_key.clone(),
            master: self.master.clone(),
            checkkey: self.checkkey.clone(),
            master_decompressed: self.master_decompressed.clone(),
        }
    }
}

// ------------------------------------------------------------------------------------------
// Keeping events open
// ------------------------------------------------------------------------------------------

/// What `DateTime::<Utc>::from_timestamp(secs, 0)` formats to with `%Y/%m/%d %H:%M`, where
/// chrono holds a date that far out.
pub uninterp spec fn master_date_text(secs: int) -> Option<Seq<char>>;

/// `DateTime::<Utc>::from_timestamp(secs, 0)` of chrono, formatted `%Y/%m/%d %H:%M`.
#[verifier::external_body]
pub(crate) fn format_master_date(secs: i64) -> (r: Option<String>)
    ensures
        r matches Some(t) ==> master_date_text(secs as int) == Some(t@),
        r is None ==> master_date_text(secs as int) is None,
{
    chrono::DateTime::<chrono::Utc>::from_timestamp(secs, 0).map(|d| d.format("%Y/%m/%d %H:%M").to_string())
}

/// The window events are kept open in: from a day before `now` to thirty days after it, as
/// master dates.
pub fn master_window(now: i64) -> (r: Option<(String, String)>)
    requires
        i64::MIN + 86400 <= now <= i64::MAX - 2592000,
    ensures
        r matches Some((s, e)) ==> master_date_text(now - 86400) == Some(s@) && master_date_text(now + 2592000) == Some(e@),
        r is None ==> master_date_text(now - 86400) is None || master_date_text(now + 2592000) is None,
{
    match (format_master_date(now - 86400), format_master_date(now + 2592000)) {
        (Some(s), Some(e)) => Some((s, e)),
        _ => None,
    }
}

/// The row with every field named `key` set to `value`.
pub open spec fn set_field(fs: FieldsView, key: Seq<char>, value: Seq<char>) -> FieldsView {
    fs.map_values(|p: (Seq<char>, Seq<char>)| if p.0 == key { (p.0, value) } else { p })
}

pub fn set_field_value(row: &MasterRow, key: &str, value: &str) -> (r: MasterRow)
    ensures
        r@ == set_field(row@, key@, value@),
{
    let mut fields: Vec<(String, String)> = Vec::new();
    let mut i: usize = 0;
    while i < row.fields.len()
        invariant
            i <= row.fields@.len(),
            fields@.len() == i,
            forall|k: int| 0 <= k < i ==> (#[trigger] fields@[k]).0@ == row@[k].0
                && fields@[k].1@ == (if row@[k].0 == key@ { value@ } else { row@[k].1 }),
        decreases row.fields@.len() - i,
    {
        let name = row.fields[i].0.clone();
        let v = if str_eq(name.as_str(), key) {
            value.to_owned()
        } else {
            row.fields[i].1.clone()
        };
        fields.push((name, v));
        i = i + 1;
    }
    let r = MasterRow { fields };
    assert(r@ =~= set_field(row@, key@, value@));
    r
}

/// What loading does to a row of the master `name` so that its event stays open: end dates
/// move to `end`, start dates to `start`, for the masters and rows it picks.
pub open spec fn patched_row(name: Seq<char>, fs: FieldsView, start: Seq<char>, end: Seq<char>) -> FieldsView {
    if name == "gacha"@ || name == "gacha_priority"@ {
        set_field(fs, "end_at"@, end)
    } else if name == "mission_panel_group"@ {
        set_field(set_field(fs, "end_at"@, end), "reward_end_at"@, end)
    } else if name == "event_config"@ {
        if lookup(fs, "event_id"@) == Some("24011"@) {
            set_field(set_field(set_field(set_field(fs, "start_at"@, start), "reward_start_at"@, start), "end_at"@, end), "reward_end_at"@, end)
        } else {
            fs
        }
    } else if name == "scorechallenge"@ {
        if lookup(fs, "id"@) == Some("2039"@) {
            set_field(set_field(fs, "start_at"@, start), "end_at"@, end)
        } else {
            fs
        }
    } else if name == "equip_weapon"@ {
        set_field(set_field(set_field(fs, "start_at"@, start), "end_at"@, end), "display_end"@, end)
    } else {
        fs
    }
}

pub fn patch_row(name: &str, row: &MasterRow, start: &str, end: &str) -> (r: MasterRow)
    ensures
        r@ == patched_row(name@, row@, start@, end@),
{
    if str_eq(name, "gacha") || str_eq(name, "gacha_priority") {
        set_field_value(row, "end_at", end)
    } else if str_eq(name, "mission_panel_group") {
        set_field_value(&set_field_value(row, "end_at", end), "reward_end_at", end)
    } else if str_eq(name, "event_config") {
        if row.field_is("event_id", "24011") {
            let a = set_field_value(row, "start_at", start);
            let b = set_field_value(&a, "reward_start_at", start);
            let c = set_field_value(&b, "end_at", end);
            set_field_value(&c, "reward_end_at", end)
        } else {
            copy_row(row)
        }
    } else if str_eq(name, "scorechallenge") {
        if row.field_is("id", "2039") {
            set_field_value(&set_field_value(row, "start_at", start), "end_at", end)
        } else {
            copy_row(row)
        }
    } else if str_eq(name, "equip_weapon") {
        let a = set_field_value(row, "start_at", start);
        let b = set_field_value(&a, "end_at", end);
        set_field_value(&b, "display_end", end)
    } else {
        copy_row(row)
    }
}

proof fn lemma_lookup_set_other(fs: FieldsView, key: Seq<char>, value: Seq<char>, other: Seq<char>)
    requires
        other != key,
    ensures
        lookup(set_field(fs, key, value), other) == lookup(fs, other),
    decreases fs.len(),
{
    if fs.len() > 0 {
        assert(set_field(fs, key, value).drop_first() =~= set_field(fs.drop_first(), key, value));
        lemma_lookup_set_other(fs.drop_first(), key, value, other);
    }
}

/// Loading the masters twice leaves them as loading them once: a patched row is patched
/// already, and keeps the names of its fields, in order.
pub proof fn law_patch_is_idempotent(name: Seq<char>, fs: FieldsView, start: Seq<char>, end: Seq<char>)
    ensures
        patched_row(name, patched_row(name, fs, start, end), start, end) == patched_row(name, fs, start, end),
        patched_row(name, fs, start, end).len() == fs.len(),
        forall|i: int| 0 <= i < fs.len() ==> (#[trigger] patched_row(name, fs, start, end)[i]).0 == fs[i].0,
{
    let p = patched_row(name, fs, start, end);
    let q = patched_row(name, p, start, end);
    reveal_strlit("start_at");
    reveal_strlit("end_at");
    reveal_strlit("event_id");
    reveal_strlit("id");
    assert("start_at"@[0] != "event_id"@[0]);
    assert("start_at"@.len() != "id"@.len());
    assert("end_at"@.len() != "id"@.len());
    reveal_strlit("reward_start_at");
    reveal_strlit("reward_end_at");
    assert("reward_start_at"@.len() != "event_id"@.len());
    assert("reward_end_at"@.len() != "event_id"@.len());
    assert("end_at"@.len() != "event_id"@.len());
    if name == "event_config"@ {
        lemma_lookup_set_other(fs, "start_at"@, start, "event_id"@);
        let a = set_field(fs, "start_at"@, start);
        lemma_lookup_set_other(a, "reward_start_at"@, start, "event_id"@);
        let b = set_field(a, "reward_start_at"@, start);
        lemma_lookup_set_other(b, "end_at"@, end, "event_id"@);
        let c = set_field(b, "end_at"@, end);
        lemma_lookup_set_other(c, "reward_end_at"@, end, "event_id"@);
    } else if name == "scorechallenge"@ {
        lemma_lookup_set_other(fs, "start_at"@, start, "id"@);
        let a = set_field(fs, "start_at"@, start);
        lemma_lookup_set_other(a, "end_at"@, end, "id"@);
    }
    assert(q =~= p);
}

/// The rows of `event_config` each name their event: loading reads every row's `event_id`.
pub open spec fn patchable(name: Seq<char>, rows: Seq<FieldsView>) -> bool {
    name == "event_config"@ ==> forall|i: int| 0 <= i < rows.len() ==> (#[trigger] lookup(rows[i], "event_id"@)) is Some
}

/// What loading does to the rows of the master `name`: each row is patched on its own.
pub fn patch_master(name: &str, rows: &Vec<MasterRow>, start: &str, end: &str) -> (r: Vec<MasterRow>)
    requires
        patchable(name@, rows_view(rows@)),
    ensures
        r@.len() == rows@.len(),
        forall|i: int| 0 <= i < rows@.len() ==> (#[trigger] r@[i])@ == patched_row(name@, rows@[i]@, start@, end@),
{
    let mut r: Vec<MasterRow> = Vec::new();
    let mut i: usize = 0;
    while i < rows.len()
        invariant
            i <= rows@.len(),
            r@.len() == i,
            forall|k: int| 0 <= k < i ==> (#[trigger] r@[k])@ == patched_row(name@, rows@[k]@, start@, end@),
        decreases rows@.len() - i,
    {
        r.push(patch_row(name, &rows[i], start, end));
        i = i + 1;
    }
    r
}

/// The fields a `gacha` row must have to be read as one.
pub open spec fn gacha_fields() -> Seq<Seq<char>> {
    seq![
        "gacha_id"@, "name"@, "description_text"@, "enable"@, "start_at"@, "end_at"@, "limit"@,
        "limit_x"@, "banner_url"@, "movie"@, "introduction_image"@, "info_banner_url"@,
        "gacha_info_url"@, "other_tab_priority"@, "footer_banner"@, "footer_banner_order"@,
        "limit_id"@, "exchang_id"@, "story"@, "story_fes"@, "ratio_text_pattern"@,
        "exchang_bonus_id"@, "exchang_name"@, "always_display_flag"@, "step_loop_count"@,
        "result_bg"@, "card_img_2"@, "card_img_3"@, "card_img_4"@, "home_appeal_priority"@,
    ]
}

fn gacha_field_list() -> (r: Vec<&'static str>)
    ensures
        r@.len() == gacha_fields().len(),
        forall|i: int| 0 <= i < r@.len() ==> (#[trigger] r@[i])@ == gacha_fields()[i],
{
    let r = vec![
        "gacha_id", "name", "description_text", "enable", "start_at", "end_at", "limit",
        "limit_x", "banner_url", "movie", "introduction_image", "info_banner_url",
        "gacha_info_url", "other_tab_priority", "footer_banner", "footer_banner_order",
        "limit_id", "exchang_id", "story", "story_fes", "ratio_text_pattern",
        "exchang_bonus_id", "exchang_name", "always_display_flag", "step_loop_count",
        "result_bg", "card_img_2", "card_img_3", "card_img_4", "home_appeal_priority",
    ];
    assert forall|i: int| 0 <= i < r@.len() implies (#[trigger] r@[i])@ == gacha_fields()[i] by {}
    r
}

/// A `gacha` row that has every field of a gacha.
pub open spec fn gacha_row_complete(fs: FieldsView) -> bool {
    forall|k: int| 0 <= k < gacha_fields().len() ==> (#[trigger] lookup(fs, gacha_fields()[k])) is Some
}

pub fn is_gacha_row_complete(row: &MasterRow) -> (r: bool)
    ensures
        r == gacha_row_complete(row@),
{
    let names = gacha_field_list();
    let mut k: usize = 0;
    while k < names.len()
        invariant
            k <= names@.len(),
            names@.len() == gacha_fields().len(),
            forall|i: int| 0 <= i < names@.len() ==> (#[trigger] names@[i])@ == gacha_fields()[i],
            forall|i: int| 0 <= i < k ==> (#[trigger] lookup(row@, gacha_fields()[i])) is Some,
        decreases names@.len() - k,
    {
        if row.get(names[k]).is_none() {
            assert(lookup(row@, gacha_fields()[k as int]) is None);
            return false;
        }
        k = k + 1;
    }
    true
}

/// The `gacha_priority` row made for a gacha: its id, priority 0, its start and end.
pub open spec fn priority_row(fs: FieldsView) -> FieldsView {
    let id = lookup(fs, "gacha_id"@).unwrap();
    seq![
        ("id"@, id),
        ("priority"@, "0"@),
        ("start_at"@, lookup(fs, "start_at"@).unwrap()),
        ("end_at"@, lookup(fs, "end_at"@).unwrap()),
        ("gacha_id"@, id),
    ]
}

/// The `gacha_priority` master, made from the `gacha` master after loading: one row per
/// gacha, in order. `None` where a gacha row lacks one of the fields of a gacha.
pub fn gacha_priority_rows(gacha: &Vec<MasterRow>) -> (r: Option<Vec<MasterRow>>)
    ensures
        r matches Some(v) ==> v@.len() == gacha@.len()
            && forall|i: int| 0 <= i < v@.len() ==> (#[trigger] v@[i])@ == priority_row(gacha@[i]@),
        r is None <==> exists|i: int| 0 <= i < gacha@.len() && !gacha_row_complete(#[trigger] gacha@[i]@),
{
    let mut out: Vec<MasterRow> = Vec::new();
    let mut i: usize = 0;
    while i < gacha.len()
        invariant
            i <= gacha@.len(),
            out@.len() == i,
            forall|k: int| 0 <= k < i ==> gacha_row_complete(#[trigger] gacha@[k]@),
            forall|k: int| 0 <= k < i ==> (#[trigger] out@[k])@ == priority_row(gacha@[k]@),
        decreases gacha@.len() - i,
    {
        let row = &gacha[i];
        if !is_gacha_row_complete(row) {
            return None;
        }
        assert(lookup(row@, gacha_fields()[0]) is Some);
        assert(lookup(row@, gacha_fields()[4]) is Some);
        assert(lookup(row@, gacha_fields()[5]) is Some);
        let id = row.get("gacha_id").unwrap();
        let start = row.get("start_at").unwrap();
        let end = row.get("end_at").unwrap();
        let fields = vec![
            ("id".to_owned(), id.clone()),
            ("priority".to_owned(), "0".to_owned()),
            ("start_at".to_owned(), start.clone()),
            ("end_at".to_owned(), end.clone()),
            ("gacha_id".to_owned(), id.clone()),
        ];
        let made = MasterRow { fields };
        assert(made@ =~= priority_row(row@));
        out.push(made);
        i = i + 1;
    }
    Some(out)
}

/// The version of the master data the server serves.
pub open spec fn master_version() -> Seq<char> {
    "202408050001"@
}

/// The first master with the key.
pub open spec fn master_index(masters: Seq<MasterAllItem>, key: Seq<char>, i: int) -> bool {
    &&& 0 <= i < masters.len()
    &&& masters[i].master_key@ == key
    &&& forall|j: int| 0 <= j < i ==> (#[trigger] masters[j]).master_key@ != key
}

pub fn find_master(masters: &Vec<MasterAllItem>, key: &str) -> (r: Option<usize>)
    ensures
        r matches Some(i) ==> master_index(masters@, key@, i as int),
        r is None ==> forall|j: int| 0 <= j < masters@.len() ==> (#[trigger] masters@[j]).master_key@ != key@,
{
    let mut i: usize = 0;
    while i < masters.len()
        invariant
            i <= masters@.len(),
            forall|j: int| 0 <= j < i ==> (#[trigger] masters@[j]).master_key@ != key@,
        decreases masters@.len() - i,
    {
        if str_eq(masters[i].master_key.as_str(), key) {
            return Some(i);
        }
        i = i + 1;
    }
    None
}

/// The index of the first master with the key.
pub open spec fn first_master(masters: Seq<MasterAllItem>, key: Seq<char>) -> int {
    choose|i: int| master_index(masters, key, i)
}

proof fn lemma_master_index_unique(masters: Seq<MasterAllItem>, key: Seq<char>, i: int)
    requires
        master_index(masters, key, i),
    ensures
        first_master(masters, key) == i,
{
    let j = first_master(masters, key);
    assert(master_index(masters, key, j));
    if j < i {
        assert(masters[j].master_key@ != key);
    } else if i < j {
        assert(masters[i].master_key@ != key);
    }
}

/// Two items with the same key, data, check key and JSON.
pub open spec fn same_item(a: MasterAllItem, b: MasterAllItem) -> bool {
    &&& a.master_key@ == b.master_key@
    &&& a.master@ == b.master@
    &&& a.checkkey@ == b.checkkey@
    &&& a.master_decompressed@ == b.master_decompressed@
}

/// Whether some master has the key.
pub open spec fn has_master(masters: Seq<MasterAllItem>, key: Seq<char>) -> bool {
    exists|j: int| 0 <= j < masters.len() && (#[trigger] masters[j]).master_key@ == key
}

/// The masters a client asks for, in the order it names them, compressed: for each name,
/// the first loaded master of that name. Every name must be that of a loaded master.
pub fn master_all(masters: &Vec<MasterAllItem>, keys: &Vec<String>) -> (r: MasterAll)
    requires
        forall|k: int| 0 <= k < keys@.len() ==> has_master(masters@, (#[trigger] keys@[k])@),
    ensures
        r.masterversion@ == master_version(),
        r.compressed,
        r.masterarray@.len() == keys@.len(),
        forall|k: int| 0 <= k < keys@.len() ==> same_item(#[trigger] r.masterarray@[k], masters@[first_master(masters@, keys@[k]@)]),
{
    let mut items: Vec<MasterAllItem> = Vec::new();
    let mut k: usize = 0;
    while k < keys.len()
        invariant
            k <= keys@.len(),
            items@.len() == k,
            forall|q: int| 0 <= q < keys@.len() ==> has_master(masters@, (#[trigger] keys@[q])@),
            forall|q: int| 0 <= q < k ==> same_item(#[trigger] items@[q], masters@[first_master(masters@, keys@[q]@)]),
        decreases keys@.len() - k,
    {
        assert(has_master(masters@, keys@[k as int]@));
        match find_master(masters, keys[k].as_str()) {
            Some(i) => {
                proof {
                    lemma_master_index_unique(masters@, keys@[k as int]@, i as int);
                }
                let item = masters[i].duplicate();
                items.push(item);
            },
            None => {
                proof {
                    let j = choose|j: int| 0 <= j < masters@.len() && (#[trigger] masters@[j]).master_key@ == keys@[k as int]@;
                    assert(masters@[j].master_key@ != keys@[k as int]@);
                }
            },
        }
        k = k + 1;
    }
    MasterAll { masterversion: String::from_str("202408050001"), masterarray: items, compressed: true }
}

/// `get_masters_definitely_initialized`: the loaded masters, which must be loaded by now.
pub fn get_masters_definitely_initialized(loaded: &Option<Vec<MasterAllItem>>) -> (r: &Vec<MasterAllItem>)
    requires
        loaded is Some,
    ensures
        *r == loaded.unwrap(),
{
    match loaded {
        Some(m) => m,
        None => unreached(),
    }
}

// ------------------------------------------------------------------------------------------
// The masters the server reads
// ------------------------------------------------------------------------------------------

/// Masters the server never reads: large, and only for the client.
pub open spec fn master_blacklist() -> Seq<Seq<char>> {
    seq!["pack"@, "assetname"@, "text"@, "voice"@, "navi"@]
}

pub fn is_blacklisted(key: &str) -> (r: bool)
    ensures
        r == master_blacklist().contains(key@),
{
    let names = vec!["pack", "assetname", "text", "voice", "navi"];
    assert forall|i: int| 0 <= i < names@.len() implies (#[trigger] names@[i])@ == master_blacklist()[i] by {}
    let mut i: usize = 0;
    while i < names.len()
        invariant
            i <= names@.len(),
            names@.len() == master_blacklist().len(),
            forall|k: int| 0 <= k < names@.len() ==> (#[trigger] names@[k])@ == master_blacklist()[k],
            forall|k: int| 0 <= k < i ==> master_blacklist()[k] != key@,
        decreases names@.len() - i,
    {
        if str_eq(names[i], key) {
            assert(master_blacklist()[i as int] == key@);
            return true;
        }
        i = i + 1;
    }
    false
}

/// The masters the server reads, by name.
pub struct MasterManager {
    pub masters: Vec<(String, Vec<MasterRow>)>,
}

impl MasterManager {
    /// The parsed masters, without the blacklisted ones, in order.
    pub fn new(parsed: Vec<(String, Vec<MasterRow>)>) -> (r: Self)
        ensures
            r.masters@.map_values(|m: (String, Vec<MasterRow>)| m.0@)
                == parsed@.map_values(|m: (String, Vec<MasterRow>)| m.0@).filter(|k: Seq<char>| !master_blacklist().contains(k)),
    {
        let ghost all = parsed@;
        let mut rest = parsed;
        let mut kept: Vec<(String, Vec<MasterRow>)> = Vec::new();
        let ghost mut n: int = 0;
        while rest.len() > 0
            invariant
                0 <= n <= all.len(),
                rest@ == all.skip(n),
                kept@.map_values(|m: (String, Vec<MasterRow>)| m.0@)
                    == all.subrange(0, n).map_values(|m: (String, Vec<MasterRow>)| m.0@).filter(|k: Seq<char>| !master_blacklist().contains(k)),
            decreases rest@.len(),
        {
            let m = rest.remove(0);
            assert(m == all[n]);
            let ghost pre = all.subrange(0, n).map_values(|m: (String, Vec<MasterRow>)| m.0@);
            assert(all.subrange(0, n + 1).map_values(|m: (String, Vec<MasterRow>)| m.0@) =~= pre.push(m.0@));
            assert(pre.push(m.0@).drop_last() =~= pre);
            reveal(Seq::filter);
            let ghost before = kept@;
            if !is_blacklisted(m.0.as_str()) {
                kept.push(m);
                assert(kept@.map_values(|m: (String, Vec<MasterRow>)| m.0@) =~= before.map_values(|m: (String, Vec<MasterRow>)| m.0@).push(kept@.last().0@));
            }
            proof {
                n = n + 1;
            }
            assert(rest@ =~= all.skip(n));
        }
        assert(all.subrange(0, n) =~= all);
        MasterManager { masters: kept }
    }

    /// The rows of the first master with the name. `None` where there is none.
    pub fn get_master(&self, key: &str) -> (r: Option<&Vec<MasterRow>>)
        ensures
            r matches Some(rows) ==> exists|i: int| 0 <= i < self.masters@.len() && (#[trigger] self.masters@[i]).0@ == key@
                && *rows == self.masters@[i].1
                && forall|j: int| 0 <= j < i ==> (#[trigger] self.masters@[j]).0@ != key@,
            r is None ==> forall|j: int| 0 <= j < self.masters@.len() ==> (#[trigger] self.masters@[j]).0@ != key@,
    {
        let mut i: usize = 0;
        while i < self.masters.len()
            invariant
                i <= self.masters@.len(),
                forall|j: int| 0 <= j < i ==> (#[trigger] self.masters@[j]).0@ != key@,
            decreases self.masters@.len() - i,
        {
            if str_eq(self.masters[i].0.as_str(), key) {
                return Some(&self.masters[i].1);
            }
            i = i + 1;
        }
        None
    }
}

/// Where the last dot of a file name stands; -1 where it has none.
pub open spec fn last_dot(s: Seq<char>) -> int
    decreases s.len(),
{
    if s.len() == 0 {
        -1
    } else if s.last() == '.' {
        s.len() - 1
    } else {
        last_dot(s.drop_last())
    }
}

/// The master a file of the masters directory holds: a file whose extension is `json` holds
/// the master named by the rest of its name. A name that starts with its only dot has no
/// extension.
pub open spec fn master_name_spec(file_name: Seq<char>) -> Option<Seq<char>> {
    let p = last_dot(file_name);
    if p > 0 && file_name.skip(p + 1) == seq!['j', 's', 'o', 'n'] {
        Some(file_name.take(p))
    } else {
        None
    }
}

proof fn lemma_last_dot(s: Seq<char>)
    ensures
        -1 <= last_dot(s) < s.len(),
        last_dot(s) >= 0 ==> s[last_dot(s)] == '.',
        forall|k: int| last_dot(s) < k < s.len() ==> s[k] != '.',
    decreases s.len(),
{
    if s.len() > 0 && s.last() != '.' {
        lemma_last_dot(s.drop_last());
        assert forall|k: int| last_dot(s) < k < s.len() implies s[k] != '.' by {
            if k < s.len() - 1 {
                assert(s.drop_last()[k] == s[k]);
            }
        }
    }
}

/// The master that a file of the masters directory holds, by the file's name.
pub fn master_name_of(file_name: &str) -> (r: Option<String>)
    ensures
        r matches Some(n) ==> master_name_spec(file_name@) == Some(n@),
        r is None ==> master_name_spec(file_name@) is None,
{
    let cs = chars_of(file_name);
    proof {
        lemma_last_dot(cs@);
    }
    let mut p: usize = cs.len();
    while p > 0 && cs[p - 1] != '.'
        invariant
            p <= cs@.len(),
            cs@ == file_name@,
            -1 <= last_dot(cs@) < cs@.len(),
            last_dot(cs@) >= 0 ==> cs@[last_dot(cs@)] == '.',
            forall|k: int| last_dot(cs@) < k < cs@.len() ==> cs@[k] != '.',
            forall|k: int| p <= k < cs@.len() ==> cs@[k] != '.',
        decreases p,
    {
        p = p - 1;
    }
    // The last dot stands at p - 1, or there is none.
    if p <= 1 {
        return None;
    }
    let dot = p - 1;
    assert(dot as int == last_dot(cs@));
    let n = cs.len();
    let is_json = n - p == 4 && cs[p] == 'j' && cs[p + 1] == 's' && cs[p + 2] == 'o' && cs[p + 3] == 'n';
    if !is_json {
        proof {
            if cs@.skip(p as int) == seq!['j', 's', 'o', 'n'] {
                assert(cs@.skip(p as int)[0] == cs@[p as int]);
                assert(cs@.skip(p as int)[1] == cs@[p + 1]);
                assert(cs@.skip(p as int)[2] == cs@[p + 2]);
                assert(cs@.skip(p as int)[3] == cs@[p + 3]);
            }
        }
        return None;
    }
    assert(cs@.skip(p as int) =~= seq!['j', 's', 'o', 'n']);
    let mut name = String::new();
    let mut i: usize = 0;
    while i < dot
        invariant
            i <= dot,
            dot < cs@.len(),
            name@ == cs@.take(i as int),
        decreases dot - i,
    {
        push_char(&mut name, cs[i]);
        assert(cs@.take(i + 1) =~= cs@.take(i as int).push(cs@[i as int]));
        i = i + 1;
    }
    Some(name)
}

} // verus!
