use vstd::prelude::*;

use crate::json::{find_member, lookup, str_field, str_member, u64_field, u64_member, JsonValue};
use crate::storage::MediaType;
use reqwest::header::{HeaderValue, InvalidHeaderValue};
use vstd::string::StringExecFns;

verus! {

/// One file or folder listed in the cloud sandbox.
#[derive(Debug, PartialEq, Eq)]
pub struct CloudItem {
    pub name: String,
    pub is_dir: bool,
    pub size: u64,
    pub path: String,
    pub media_type: String,
}

/// The mathematical content of a [`CloudItem`].
pub struct CloudItemView {
    pub name: Seq<char>,
    pub is_dir: bool,
    pub size: u64,
    pub path: Seq<char>,
    pub media_type: Seq<char>,
}

impl View for CloudItem {
    type V = CloudItemView;

    open spec fn view(&self) -> CloudItemView {
        CloudItemView {
            name: self.name@,
            is_dir: self.is_dir,
            size: self.size,
            path: self.path@,
            media_type: self.media_type@,
        }
    }
}

/// The cloud items of a listing, sorted by media type.
#[derive(Debug)]
pub struct ParsedResult {
    pub audio: Vec<CloudItem>,
    pub image: Vec<CloudItem>,
    pub video: Vec<CloudItem>,
}

impl Default for ParsedResult {
    fn default() -> (r: Self)
        ensures
            r.audio@.len() == 0,
            r.image@.len() == 0,
            r.video@.len() == 0,
    {
        ParsedResult { audio: Vec::new(), image: Vec::new(), video: Vec::new() }
    }
}

impl ParsedResult {
    /// The items of one media type.
    pub fn into_kind(self, media_type: MediaType) -> (r: Vec<CloudItem>)
        ensures
            r == (match media_type {
                MediaType::Audio => self.audio,
                MediaType::Image => self.image,
                MediaType::Video => self.video,
            }),
    {
        match media_type {
            MediaType::Audio => self.audio,
            MediaType::Image => self.image,
            MediaType::Video => self.video,
        }
    }
}

/// The listed entries of a response: the array under `items` of the object
/// under `_embedded`, if the response has one.
pub open spec fn listed_entries(response: Seq<(String, JsonValue)>) -> Option<Seq<JsonValue>> {
    match lookup(response, "_embedded"@) {
        Some(JsonValue::Object(embedded)) => match lookup(embedded@, "items"@) {
            Some(JsonValue::Array(entries)) => Some(entries@),
            _ => None,
        },
        _ => None,
    }
}

/// The cloud item that a listed entry describes: an object with a non-empty
/// `name`; missing strings read as empty, a missing size as zero, and the
/// entry is a folder when its `type` is `dir`.
pub open spec fn entry_item(entry: JsonValue) -> Option<CloudItemView> {
    match entry {
        JsonValue::Object(m) => {
            let name = str_member(m@, "name"@);
            if name.len() == 0 {
                None
            } else {
                Some(
                    CloudItemView {
                        name,
                        is_dir: str_member(m@, "type"@) == "dir"@,
                        size: u64_member(m@, "size"@),
                        path: str_member(m@, "path"@),
                        media_type: str_member(m@, "media_type"@),
                    },
                )
            }
        },
        _ => None,
    }
}

/// The cloud items of a given media type among the listed entries, in listing order.
pub open spec fn items_of_kind(entries: Seq<JsonValue>, kind: Seq<char>) -> Seq<CloudItemView>
    decreases entries.len(),
{
    if entries.len() == 0 {
        Seq::empty()
    } else {
        let earlier = items_of_kind(entries.drop_last(), kind);
        match entry_item(entries.last()) {
            Some(item) => if item.media_type == kind {
                earlier.push(item)
            } else {
                earlier
            },
            None => earlier,
        }
    }
}

/// The views of a list of cloud items.
pub open spec fn item_views(items: Seq<CloudItem>) -> Seq<CloudItemView> {
    items.map_values(|it: CloudItem| it@)
}

/// Why a listing could not be read.
#[derive(Debug, PartialEq, Eq)]
pub enum ParseError {
    /// The response has no `_embedded.items` array.
    MissingItems,
}

/// The client of the cloud drive, bound to one media folder.
pub struct YandexService {
    token: String,
    concurrency: usize,
    media_type: MediaType,
}

impl YandexService {
    pub closed spec fn spec_token(&self) -> Seq<char> {
        self.token@
    }

    pub closed spec fn spec_concurrency(&self) -> usize {
        self.concurrency
    }

    pub closed spec fn spec_media_type(&self) -> MediaType {
        self.media_type
    }

    pub fn new(token: String, concurrency: usize, media_type: MediaType) -> (r: Self)
        ensures
            r.spec_token() == token@,
            r.spec_concurrency() == concurrency,
            r.spec_media_type() == media_type,
    {
        YandexService { token, concurrency, media_type }
    }

    /// The access token.
    pub fn token(&self) -> (r: &String)
        ensures
            r@ == self.spec_token(),
    {
        &self.token
    }

    /// How many transfers may run at once.
    pub fn concurrency(&self) -> (r: usize)
        ensures
            r == self.spec_concurrency(),
    {
        self.concurrency
    }

    /// The media folder this client works on.
    pub fn media_type(&self) -> (r: MediaType)
        ensures
            r == self.spec_media_type(),
    {
        self.media_type
    }

    /// The cloud path of this client's media folder.
    pub fn listing_path(&self) -> (r: String)
        ensures
            r@ == "app:/"@ + self.spec_media_type().folder_name(),
    {
        folder_path(self.media_type)
    }

    /// The cloud path a local file of this name is uploaded to.
    pub fn upload_path(&self, file_name: &String) -> (r: String)
        ensures
            r@ == "app:/"@ + self.spec_media_type().folder_name() + "/"@ + file_name@,
    {
        upload_path(self.media_type, file_name)
    }

    /// The value of the authorisation header sent with every request.
    pub fn authorization(&self) -> (r: String)
        ensures
            r@ == "OAuth "@ + self.spec_token(),
    {
        auth_header(&self.token)
    }

    /// Sorts the entries of a folder listing into audio, image and video
    /// items; entries of other media types, entries that are not objects and
    /// entries without a name are left out.
    pub fn parse_response(&self, response: Vec<(String, JsonValue)>) -> (r: Result<
        ParsedResult,
        ParseError,
    >)
        ensures
            r is Err <==> listed_entries(response@) is None,
            r matches Err(e) ==> e == ParseError::MissingItems,
            r matches Ok(p) ==> {
                &&& item_views(p.audio@) == items_of_kind(listed_entries(response@)->0, "audio"@)
                &&& item_views(p.image@) == items_of_kind(listed_entries(response@)->0, "image"@)
                &&& item_views(p.video@) == items_of_kind(listed_entries(response@)->0, "video"@)
            },
    {
        parse_listing(&response)
    }
}

/// Reads one listed entry.
fn read_entry(entry: &JsonValue) -> (r: Option<CloudItem>)
    ensures
        match r {
            Some(it) => entry_item(*entry) == Some(it@),
            None => entry_item(*entry) is None,
        },
{
    match entry {
        JsonValue::Object(m) => {
            let name = str_field(m, &"name".to_owned());
            if name.as_str().is_empty() {
                None
            } else {
                let item_type = str_field(m, &"type".to_owned());
                let is_dir = item_type == "dir".to_owned();
                let size = u64_field(m, &"size".to_owned());
                let path = str_field(m, &"path".to_owned());
                let media_type = str_field(m, &"media_type".to_owned());
                Some(CloudItem { name, is_dir, size, path, media_type })
            }
        },
        _ => None,
    }
}

/// Sorts listed entries by media type; the work of [`YandexService::parse_response`].
pub fn parse_listing(response: &Vec<(String, JsonValue)>) -> (r: Result<ParsedResult, ParseError>)
    ensures
        r is Err <==> listed_entries(response@) is None,
        r matches Err(e) ==> e == ParseError::MissingItems,
        r matches Ok(p) ==> {
            &&& item_views(p.audio@) == items_of_kind(listed_entries(response@)->0, "audio"@)
            &&& item_views(p.image@) == items_of_kind(listed_entries(response@)->0, "image"@)
            &&& item_views(p.video@) == items_of_kind(listed_entries(response@)->0, "video"@)
        },
{
    let entries = match find_member(response, &"_embedded".to_owned()) {
        Some(JsonValue::Object(embedded)) => match find_member(embedded, &"items".to_owned()) {
            Some(JsonValue::Array(entries)) => entries,
            _ => {
                return Err(ParseError::MissingItems);
            },
        },
        _ => {
            return Err(ParseError::MissingItems);
        },
    };
    let ghost all = entries@;
    let audio_kind = "audio".to_owned();
    let image_kind = "image".to_owned();
    let video_kind = "video".to_owned();
    let mut result = ParsedResult { audio: Vec::new(), image: Vec::new(), video: Vec::new() };
    let n = entries.len();
    let mut i: usize = 0;
    assert(all.take(0) =~= Seq::<JsonValue>::empty());
    while i < n
        invariant
            n == all.len(),
            all == entries@,
            i <= n,
            audio_kind@ == "audio"@,
            image_kind@ == "image"@,
            video_kind@ == "video"@,
            item_views(result.audio@) == items_of_kind(all.take(i as int), "audio"@),
            item_views(result.image@) == items_of_kind(all.take(i as int), "image"@),
            item_views(result.video@) == items_of_kind(all.take(i as int), "video"@),
        decreases n - i,
    {
        let ghost before = result;
        proof {
            reveal_strlit("audio");
            reveal_strlit("image");
            reveal_strlit("video");
            assert("audio"@[0] != "image"@[0] && "audio"@[0] != "video"@[0] && "image"@[0]
                != "video"@[0]);
        }
        assert(all.take(i + 1).drop_last() =~= all.take(i as int));
        assert(all.take(i + 1).last() == all[i as int]);
        match read_entry(&entries[i]) {
            Some(item) => {
                if item.media_type == audio_kind {
                    result.audio.push(item);
                    assert(item_views(result.audio@) =~= item_views(before.audio@).push(item@));
                } else if item.media_type == image_kind {
                    result.image.push(item);
                    assert(item_views(result.image@) =~= item_views(before.image@).push(item@));
                } else if item.media_type == video_kind {
                    result.video.push(item);
                    assert(item_views(result.video@) =~= item_views(before.video@).push(item@));
                }
            },
            None => {},
        }
        i = i + 1;
    }
    assert(all.take(n as int) =~= all);
    Ok(result)
}


/// HTTP status 200.
pub const STATUS_OK: u16 = 200;

/// HTTP status 201.
pub const STATUS_CREATED: u16 = 201;

/// HTTP status 202.
pub const STATUS_ACCEPTED: u16 = 202;

/// HTTP status 404.
pub const STATUS_NOT_FOUND: u16 = 404;

/// A listing with no entries, as if read from an empty folder.
pub open spec fn is_empty_listing(response: Seq<(String, JsonValue)>) -> bool {
    listed_entries(response) == Some(Seq::<JsonValue>::empty())
}

/// The document `{"_embedded": {"items": []}}`.
pub open spec fn is_fresh_listing(r: Seq<(String, JsonValue)>) -> bool {
    &&& r.len() == 1
    &&& r[0].0@ == "_embedded"@
    &&& r[0].1 matches JsonValue::Object(m) && m@.len() == 1 && m@[0].0@ == "items"@ && (
    m@[0].1 matches JsonValue::Array(a) && a@.len() == 0)
}

/// The listing that stands for a folder that was just created: an empty
/// `_embedded.items` array.
pub fn empty_listing() -> (r: Vec<(String, JsonValue)>)
    ensures
        is_fresh_listing(r@),
        is_empty_listing(r@),
{
    let items: Vec<(String, JsonValue)> = vec![("items".to_owned(), JsonValue::Array(Vec::new()))];
    let r: Vec<(String, JsonValue)> = vec![("_embedded".to_owned(), JsonValue::Object(items))];
    proof {
        let emb = r@[0].1;
        assert(r@.drop_first() =~= Seq::<(String, JsonValue)>::empty());
        match emb {
            JsonValue::Object(m) => {
                assert(m@.drop_first() =~= Seq::<(String, JsonValue)>::empty());
            },
            _ => {},
        }
    }
    r
}

/// A listing without entries yields no item of any media type.
pub proof fn law_empty_listing_has_no_items(response: Seq<(String, JsonValue)>)
    requires
        is_empty_listing(response),
    ensures
        listed_entries(response) is Some,
        items_of_kind(listed_entries(response)->0, "audio"@).len() == 0,
        items_of_kind(listed_entries(response)->0, "image"@).len() == 0,
        items_of_kind(listed_entries(response)->0, "video"@).len() == 0,
{
}

/// Every item sorted under a media type has that media type and a non-empty
/// name, and comes from an entry of the listing.
pub proof fn law_sorted_items_have_their_kind(entries: Seq<JsonValue>, kind: Seq<char>, k: int)
    requires
        0 <= k < items_of_kind(entries, kind).len(),
    ensures
        items_of_kind(entries, kind)[k].media_type == kind,
        items_of_kind(entries, kind)[k].name.len() > 0,
        exists|i: int|
            0 <= i < entries.len() && #[trigger] entry_item(entries[i]) == Some(
                items_of_kind(entries, kind)[k],
            ),
    decreases entries.len(),
{
    let d = entries.drop_last();
    let earlier = items_of_kind(d, kind);
    if k < earlier.len() {
        law_sorted_items_have_their_kind(d, kind, k);
        let i = choose|i: int| 0 <= i < d.len() && #[trigger] entry_item(d[i]) == Some(earlier[k]);
        assert(entries[i] == d[i]);
        assert(items_of_kind(entries, kind)[k] == earlier[k]);
    } else {
        assert(entry_item(entries[entries.len() - 1]) == Some(items_of_kind(entries, kind)[k]));
    }
}

/// Whether a listed entry sorts under a media type: an object with a
/// non-empty name and that `media_type`.
pub open spec fn sorts_under(kind: Seq<char>) -> spec_fn(JsonValue) -> bool {
    |e: JsonValue| entry_item(e) is Some && entry_item(e)->0.media_type == kind
}

/// The cloud item a sorted entry describes.
pub open spec fn described_item() -> spec_fn(JsonValue) -> CloudItemView {
    |e: JsonValue| entry_item(e)->0
}

/// The sort is complete and keeps listing order: the items of a kind are
/// the items described by exactly those entries that sort under it, one per
/// entry, wherever the entry stands in the listing.
pub proof fn law_sort_is_complete(entries: Seq<JsonValue>, kind: Seq<char>)
    ensures
        items_of_kind(entries, kind) == entries.filter(sorts_under(kind)).map_values(
            described_item(),
        ),
        items_of_kind(entries, kind).len() == entries.filter(sorts_under(kind)).len(),
        forall|i: int|
            0 <= i < entries.len() && entry_item(#[trigger] entries[i]) is Some && entry_item(
                entries[i],
            )->0.media_type == kind ==> items_of_kind(entries, kind).contains(
                entry_item(entries[i])->0,
            ),
    decreases entries.len(),
{
    reveal(Seq::filter);
    let pred = sorts_under(kind);
    if entries.len() > 0 {
        let d = entries.drop_last();
        law_sort_is_complete(d, kind);
        let f = d.filter(pred);
        if pred(entries.last()) {
            assert(entries.filter(pred) == f.push(entries.last()));
            assert(f.push(entries.last()).map_values(described_item()) =~= f.map_values(
                described_item(),
            ).push(entry_item(entries.last())->0));
        } else {
            assert(entries.filter(pred) == f);
        }
    }
    assert forall|i: int|
        0 <= i < entries.len() && entry_item(#[trigger] entries[i]) is Some && entry_item(
            entries[i],
        )->0.media_type == kind implies items_of_kind(entries, kind).contains(
        entry_item(entries[i])->0,
    ) by {
        broadcast use vstd::seq_lib::group_filter_ensures;

        assert(pred(entries[i]));
        assert(entries.filter(pred).contains(entries[i]));
        let k = choose|k: int|
            0 <= k < entries.filter(pred).len() && entries.filter(pred)[k] == entries[i];
        assert(items_of_kind(entries, kind)[k] == entry_item(entries[i])->0);
    }
}

/// The entries of a listing are the array under `items` in the object under
/// `_embedded`, found wherever those members stand; without either there is
/// no listing.
pub proof fn law_listing_entries(
    response: Seq<(String, JsonValue)>,
    embedded: Vec<(String, JsonValue)>,
    entries: Vec<JsonValue>,
)
    ensures
        lookup(response, "_embedded"@) == Some(JsonValue::Object(embedded)) && lookup(
            embedded@,
            "items"@,
        ) == Some(JsonValue::Array(entries)) ==> listed_entries(response) == Some(entries@),
        !(lookup(response, "_embedded"@) matches Some(JsonValue::Object(_))) ==> listed_entries(
            response,
        ) is None,
{
}

/// An entry's item carries what the entry's members say: the `name`,
/// `path` and `media_type` strings, the `size` number (zero where there is
/// none), and it is a folder exactly when `type` is the string `dir`; an
/// entry whose name is missing or empty, or that is not an object, gives none.
pub proof fn law_entry_reads_its_members(m: Vec<(String, JsonValue)>)
    ensures
        ({
            let item = entry_item(JsonValue::Object(m));
            match lookup(m@, "name"@) {
                Some(JsonValue::Str(n)) => if n@.len() > 0 {
                    &&& item is Some
                    &&& item->0.name == n@
                    &&& (lookup(m@, "path"@) matches Some(JsonValue::Str(p)) ==> item->0.path
                        == p@)
                    &&& (lookup(m@, "media_type"@) matches Some(JsonValue::Str(t))
                        ==> item->0.media_type == t@)
                    &&& (lookup(m@, "size"@) matches Some(JsonValue::Number(Some(k)))
                        ==> item->0.size == k)
                    &&& (!(lookup(m@, "size"@) matches Some(JsonValue::Number(Some(_))))
                        ==> item->0.size == 0)
                    &&& (lookup(m@, "type"@) matches Some(JsonValue::Str(t)) ==> (item->0.is_dir
                        <==> t@ == "dir"@))
                    &&& (!(lookup(m@, "type"@) matches Some(JsonValue::Str(_))) ==> !item->0.is_dir)
                } else {
                    item is None
                },
                _ => item is None,
            }
        }),
        forall|v: JsonValue| !(v is Object) ==> entry_item(v) is None,
{
    reveal_strlit("dir");
    assert("dir"@.len() == 3);
    assert(Seq::<char>::empty() != "dir"@);
}

/// What to do with the answer to a folder listing request.
#[derive(Debug, PartialEq, Eq)]
pub enum ListingStep {
    /// The listing is there: read it.
    Read,
    /// The folder does not exist yet: create it, then read an empty listing.
    CreateFolder,
    /// The service refused, with this message.
    Fail(String),
}

/// The message that an error answer carries under `message`, or `default`.
pub open spec fn answer_message(response: Seq<(String, JsonValue)>, default: Seq<char>) -> Seq<
    char,
> {
    match lookup(response, "message"@) {
        Some(JsonValue::Str(s)) => s@,
        _ => default,
    }
}

/// Reads the message of an error answer, falling back to `default`.
pub fn error_message(response: &Vec<(String, JsonValue)>, default: &str) -> (r: String)
    ensures
        r@ == answer_message(response@, default@),
{
    match find_member(response, &"message".to_owned()) {
        Some(JsonValue::Str(s)) => s.clone(),
        _ => default.to_owned(),
    }
}

/// Decides on the answer to the folder listing request: a listing on 200, a
/// folder to create on 404, a failure with the service's message otherwise.
pub fn listing_step(status: u16, response: &Vec<(String, JsonValue)>) -> (r: ListingStep)
    ensures
        status == STATUS_OK ==> r == ListingStep::Read,
        status == STATUS_NOT_FOUND ==> r == ListingStep::CreateFolder,
        status != STATUS_OK && status != STATUS_NOT_FOUND ==> (r matches ListingStep::Fail(m)
            && m@ == answer_message(response@, "Unknown error from Yandex_api"@)),
{
    if status == STATUS_OK {
        ListingStep::Read
    } else if status == STATUS_NOT_FOUND {
        ListingStep::CreateFolder
    } else {
        ListingStep::Fail(error_message(response, "Unknown error from Yandex_api"))
    }
}

/// Why a folder listing could not be had.
#[derive(Debug, PartialEq, Eq)]
pub enum ListingError {
    /// Creating the missing folder was answered with this status instead of 201.
    FolderNotCreated(u16),
}

/// The listing after an attempt to create the missing folder: an empty
/// listing when the service answered 201, an error otherwise.
pub fn listing_after_create(status: u16) -> (r: Result<Vec<(String, JsonValue)>, ListingError>)
    ensures
        status == STATUS_CREATED ==> (r matches Ok(l) && is_fresh_listing(l@) && is_empty_listing(l@)),
        status != STATUS_CREATED ==> r == Err::<Vec<(String, JsonValue)>, ListingError>(
            ListingError::FolderNotCreated(status),
        ),
{
    if status == STATUS_CREATED {
        Ok(empty_listing())
    } else {
        Err(ListingError::FolderNotCreated(status))
    }
}

/// Why no transfer link was given for a file.
#[derive(Debug, PartialEq, Eq)]
pub enum LinkError {
    /// The service answered with an error status and this message.
    Refused(String),
    /// The answer holds no `href` string.
    MissingHref,
}

/// The link to transfer a file through, read from the answer to a link
/// request: the `href` string of a 200 answer.
pub fn transfer_link(status: u16, response: &Vec<(String, JsonValue)>) -> (r: Result<
    String,
    LinkError,
>)
    ensures
        status != STATUS_OK ==> (r matches Err(LinkError::Refused(m)) && m@ == answer_message(
            response@,
            "Unknown error"@,
        )),
        status == STATUS_OK ==> match lookup(response@, "href"@) {
            Some(JsonValue::Str(h)) => (r matches Ok(l) && l@ == h@),
            _ => r == Err::<String, LinkError>(LinkError::MissingHref),
        },
{
    if status != STATUS_OK {
        return Err(LinkError::Refused(error_message(response, "Unknown error")));
    }
    match find_member(response, &"href".to_owned()) {
        Some(JsonValue::Str(h)) => Ok(h.clone()),
        _ => Err(LinkError::MissingHref),
    }
}

/// Whether a download answer reports success (a status from 200 to 299).
pub fn download_succeeded(status: u16) -> (r: bool)
    ensures
        r == (200 <= status <= 299),
{
    200 <= status && status <= 299
}

/// Whether the service took an uploaded file (status 201 or 202).
pub fn upload_accepted(status: u16) -> (r: bool)
    ensures
        r == (status == STATUS_CREATED || status == STATUS_ACCEPTED),
{
    status == STATUS_CREATED || status == STATUS_ACCEPTED
}

/// The number of failed transfers in a batch.
pub open spec fn failures(results: Seq<Result<(), String>>) -> nat
    decreases results.len(),
{
    if results.len() == 0 {
        0
    } else {
        failures(results.drop_last()) + if results.last() is Err {
            1nat
        } else {
            0nat
        }
    }
}

/// Counts the failed transfers of a batch.
pub fn count_failures(results: &Vec<Result<(), String>>) -> (r: usize)
    ensures
        r == failures(results@),
{
    let n = results.len();
    let mut count: usize = 0;
    let mut i: usize = 0;
    assert(results@.take(0) =~= Seq::<Result<(), String>>::empty());
    while i < n
        invariant
            n == results@.len(),
            i <= n,
            count == failures(results@.take(i as int)),
            count <= i,
        decreases n - i,
    {
        assert(results@.take(i + 1).drop_last() =~= results@.take(i as int));
        if results[i].is_err() {
            count = count + 1;
        }
        i = i + 1;
    }
    assert(results@.take(n as int) =~= results@);
    count
}

/// Every failed transfer counts once: the failures are exactly the failed
/// results, a failure appended adds one and a success appended adds nothing.
pub proof fn law_failures_count_each_error(results: Seq<Result<(), String>>)
    ensures
        failures(results) == results.filter(|r: Result<(), String>| r is Err).len(),
        forall|e: String| #[trigger] failures(results.push(Err(e))) == failures(results) + 1,
        failures(results.push(Ok(()))) == failures(results),
    decreases results.len(),
{
    reveal(Seq::filter);
    if results.len() > 0 {
        law_failures_count_each_error(results.drop_last());
    }
    assert forall|e: String| #[trigger] failures(results.push(Err(e))) == failures(results) + 1 by {
        assert(results.push(Err(e)).drop_last() =~= results);
    }
    assert(results.push(Ok(())).drop_last() =~= results);
}

/// A batch has no failure exactly when every transfer succeeded.
pub proof fn law_no_failures_iff_all_succeeded(results: Seq<Result<(), String>>)
    ensures
        (failures(results) == 0) <==> (forall|i: int| 0 <= i < results.len() ==> #[trigger] results[i] is Ok),
    decreases results.len(),
{
    if results.len() > 0 {
        let d = results.drop_last();
        law_no_failures_iff_all_succeeded(d);
        assert forall|i: int| 0 <= i < d.len() implies #[trigger] d[i] == results[i] by {}
        if failures(results) == 0 {
            assert forall|i: int| 0 <= i < results.len() implies #[trigger] results[i] is Ok by {
                if i < d.len() {
                    assert(d[i] is Ok);
                }
            }
        }
        if forall|i: int| 0 <= i < results.len() ==> #[trigger] results[i] is Ok {
            assert(results[results.len() - 1] is Ok);
            assert forall|i: int| 0 <= i < d.len() implies #[trigger] d[i] is Ok by {
                assert(results[i] is Ok);
            }
        }
    }
}

/// The cloud path of a media folder: `app:/` and the folder name.
pub fn folder_path(media_type: MediaType) -> (r: String)
    ensures
        r@ == "app:/"@ + media_type.folder_name(),
{
    "app:/".to_owned().concat(media_type.as_str())
}

/// The cloud path a local file is uploaded to: its media folder, `/`, and its name.
pub fn upload_path(media_type: MediaType, file_name: &String) -> (r: String)
    ensures
        r@ == "app:/"@ + media_type.folder_name() + "/"@ + file_name@,
{
    folder_path(media_type).concat("/").concat(file_name.as_str())
}

/// The value of the authorisation header for a token.
pub fn auth_header(token: &String) -> (r: String)
    ensures
        r@ == "OAuth "@ + token@,
{
    "OAuth ".to_owned().concat(token.as_str())
}


#[verifier::external_type_specification]
#[verifier::external_body]
pub struct ExHeaderValue(HeaderValue);

#[verifier::external_type_specification]
#[verifier::external_body]
pub struct ExInvalidHeaderValue(InvalidHeaderValue);

/// Whether a byte may stand in an HTTP header value: a tab, or any byte from
/// 32 up other than 127.
pub open spec fn header_byte_allowed(b: u8) -> bool {
    (b >= 32 && b != 127) || b == 9
}

/// Whether every byte of a text's UTF-8 encoding may stand in a header value.
pub open spec fn header_text_allowed(text: Seq<char>) -> bool {
    let bytes = vstd::utf8::encode_utf8(text);
    forall|i: int| 0 <= i < bytes.len() ==> header_byte_allowed(#[trigger] bytes[i])
}

/// The bytes a header value holds.
pub uninterp spec fn header_bytes(v: HeaderValue) -> Seq<u8>;

/// `reqwest::header::HeaderValue::from_str`: succeeds exactly when every
/// byte of the text's UTF-8 encoding is a tab or a byte from 32 up other than
/// 127, and the value then holds exactly those bytes.
#[verifier::external_body]
fn header_value(src: &str) -> (r: Result<HeaderValue, InvalidHeaderValue>)
    ensures
        r is Ok <==> header_text_allowed(src@),
        r matches Ok(v) ==> header_bytes(v) == vstd::utf8::encode_utf8(src@),
{
    HeaderValue::from_str(src)
}

/// The text of a URL that `reqwest::Url::parse_with_params` builds from a base
/// and query pairs, or `None` where the base does not parse; the percent
/// encoding of the pairs is that crate's.
pub uninterp spec fn url_with_params(base: Seq<char>, params: Seq<(Seq<char>, Seq<char>)>) -> Option<
    Seq<char>,
>;

/// The text views of query pairs.
pub open spec fn pairs_view(params: Seq<(String, String)>) -> Seq<(Seq<char>, Seq<char>)> {
    params.map_values(|p: (String, String)| (p.0@, p.1@))
}

/// `reqwest::Url::parse_with_params`: parses `base` and appends the pairs to
/// its query; the result is named by [`url_with_params`].
#[verifier::external_body]
fn parse_with_params(base: &str, params: &Vec<(String, String)>) -> (r: Option<String>)
    ensures
        match r {
            Some(u) => url_with_params(base@, pairs_view(params@)) == Some(u@),
            None => url_with_params(base@, pairs_view(params@)) is None,
        },
{
    reqwest::Url::parse_with_params(base, params.iter()).ok().map(String::from)
}

/// Why a request could not be built.
#[derive(Debug, PartialEq, Eq)]
pub enum RequestError {
    /// The URL did not parse.
    BadUrl,
    /// The token holds bytes that cannot stand in a header.
    InvalidToken,
}

/// The address of the disk resources API.
pub open spec fn resources_url() -> Seq<char> {
    "https://cloud-api.yandex.net/v1/disk/resources"@
}

/// The most entries a listing request asks for.
pub open spec fn listing_limit() -> Seq<char> {
    "100000"@
}

fn resources_base() -> (r: &'static str)
    ensures
        r@ == resources_url(),
{
    "https://cloud-api.yandex.net/v1/disk/resources"
}

/// The URL of a request on a cloud path: the `base` address with `limit`
/// and `path` in the query where a limit is given, `path` alone otherwise.
pub open spec fn request_url(base: Seq<char>, limit: Option<Seq<char>>, path: Seq<char>) -> Option<
    Seq<char>,
> {
    match limit {
        Some(l) => url_with_params(base, seq![("limit"@, l), ("path"@, path)]),
        None => url_with_params(base, seq![("path"@, path)]),
    }
}

/// The text of an optional string.
pub open spec fn text_opt(t: Option<&str>) -> Option<Seq<char>> {
    match t {
        Some(l) => Some(l@),
        None => None,
    }
}

fn build_url(base: &str, limit: Option<&str>, path: String) -> (r: Result<String, RequestError>)
    ensures
        match r {
            Ok(u) => request_url(base@, text_opt(limit), path@) == Some(u@),
            Err(e) => e == RequestError::BadUrl && request_url(base@, text_opt(limit), path@) is None,
        },
{
    let mut params: Vec<(String, String)> = Vec::new();
    match limit {
        Some(l) => {
            params.push(("limit".to_owned(), l.to_owned()));
        },
        None => {},
    }
    params.push(("path".to_owned(), path));
    proof {
        match limit {
            Some(l) => {
                assert(pairs_view(params@) =~= seq![("limit"@, l@), ("path"@, path@)]);
            },
            None => {
                assert(pairs_view(params@) =~= seq![("path"@, path@)]);
            },
        }
    }
    match parse_with_params(base, &params) {
        Some(u) => Ok(u),
        None => Err(RequestError::BadUrl),
    }
}

impl YandexService {
    /// The header value `OAuth <token>` sent with every request; refused when
    /// the token holds bytes that cannot stand in a header.
    pub fn authorization_header(&self) -> (r: Result<HeaderValue, RequestError>)
        ensures
            r is Err <==> !header_text_allowed("OAuth "@ + self.spec_token()),
            r matches Ok(v) ==> header_bytes(v) == vstd::utf8::encode_utf8("OAuth "@ + self.spec_token()),
            r matches Err(e) ==> e == RequestError::InvalidToken,
    {
        let text = self.authorization();
        match header_value(text.as_str()) {
            Ok(v) => Ok(v),
            Err(_) => Err(RequestError::InvalidToken),
        }
    }

    /// The URL that lists this client's media folder (also the URL that
    /// creates it): the resources address with `limit=100000` and the folder path.
    pub fn listing_url(&self) -> (r: Result<String, RequestError>)
        ensures
            match r {
                Ok(u) => request_url(
                    resources_url(),
                    Some(listing_limit()),
                    "app:/"@ + self.spec_media_type().folder_name(),
                ) == Some(u@),
                Err(e) => e == RequestError::BadUrl && request_url(
                    resources_url(),
                    Some(listing_limit()),
                    "app:/"@ + self.spec_media_type().folder_name(),
                ) is None,
            },
    {
        build_url(resources_base(), Some("100000"), self.listing_path())
    }

    /// The URL that asks for the upload link of a local file.
    pub fn upload_link_url(&self, file_name: &String) -> (r: Result<String, RequestError>)
        ensures
            match r {
                Ok(u) => request_url(
                    "https://cloud-api.yandex.net/v1/disk/resources/upload"@,
                    None,
                    "app:/"@ + self.spec_media_type().folder_name() + "/"@ + file_name@,
                ) == Some(u@),
                Err(e) => e == RequestError::BadUrl && request_url(
                    "https://cloud-api.yandex.net/v1/disk/resources/upload"@,
                    None,
                    "app:/"@ + self.spec_media_type().folder_name() + "/"@ + file_name@,
                ) is None,
            },
    {
        build_url("https://cloud-api.yandex.net/v1/disk/resources/upload", None, self.upload_path(file_name))
    }
}

/// The URL that asks for the download link of a cloud item.
pub fn download_link_url(item: &CloudItem) -> (r: Result<String, RequestError>)
    ensures
        match r {
            Ok(u) => request_url(
                "https://cloud-api.yandex.net/v1/disk/resources/download"@,
                None,
                item.path@,
            ) == Some(u@),
            Err(e) => e == RequestError::BadUrl && request_url(
                "https://cloud-api.yandex.net/v1/disk/resources/download"@,
                None,
                item.path@,
            ) is None,
        },
{
    build_url("https://cloud-api.yandex.net/v1/disk/resources/download", None, item.path.clone())
}

} // verus!
