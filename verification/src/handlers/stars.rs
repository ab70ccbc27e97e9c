//! The star card pages: feed, draft, publication, deletion and grid.

use vstd::prelude::*;
use crate::errors::{AppError, is_not_found, is_validation};
use crate::forms::{DraftForm, FeedQuery, PublishForm, StarsFilter};
use crate::models::{DecimalValue, StarTemplate};
use crate::models::andromeda_stars::Model as Star;
use crate::models::andromeda_users::Model as User;
use crate::number::{digit_char, i64_text, int_text, nat_text, parse_i64, parsed_i64};
use crate::text::{
    CharClass,
    chars_of,
    is_prefix,
    owned,
    starts_with_chars,
    string_of,
    trim_chars,
    trim_end_chars,
    trim_start_chars,
    trim_class,
    trim_end_class,
    trim_start_class,
};

verus! {

/// Image shown for a card that has none.
pub const DEFAULT_IMAGE_URL: &'static str = "/static/defaults/andromeda-placeholder.svg";

/// Video shown for a card that has none.
pub const DEFAULT_VIDEO_URL: &'static str = "/static/defaults/andromeda-placeholder.mp4";

pub open spec fn default_image_text() -> Seq<char> {
    "/static/defaults/andromeda-placeholder.svg"@
}

pub open spec fn default_video_text() -> Seq<char> {
    "/static/defaults/andromeda-placeholder.mp4"@
}

/// Where stored media files are published: the object store's public base
/// address and the bucket that holds the files.
#[derive(Debug, Clone)]
pub struct MediaConfig {
    pub base: String,
    pub bucket: String,
}

/// The media location of the configuration, with the defaults for what is
/// not configured.
pub fn media_config(base: Option<String>, bucket: Option<String>) -> (c: MediaConfig)
    ensures
        c.base@ == (match base {
            Some(b) => b@,
            None => "http://127.0.0.1:9000"@,
        }),
        c.bucket@ == (match bucket {
            Some(b) => b@,
            None => "andromeda"@,
        }),
{
    let base = match base {
        Some(b) => b,
        None => owned("http://127.0.0.1:9000"),
    };
    let bucket = match bucket {
        Some(b) => b,
        None => owned("andromeda"),
    };
    MediaConfig { base, bucket }
}

/// Whether `s` is already an absolute web address.
pub open spec fn is_absolute_link(s: Seq<char>) -> bool {
    is_prefix("http://"@, s) || is_prefix("https://"@, s)
}

/// The address a card shows for a stored media reference `value`: the
/// fallback when there is none, the reference itself when it is already an
/// absolute address, and otherwise the reference inside the bucket of the
/// object store, joined by single slashes.
pub open spec fn media_link(
    value: Seq<char>,
    fallback: Seq<char>,
    base: Seq<char>,
    bucket: Seq<char>,
) -> Seq<char> {
    if value.len() == 0 {
        fallback
    } else if is_absolute_link(value) {
        value
    } else {
        trim_end_class(base, CharClass::Exactly('/')) + seq!['/'] + trim_class(
            bucket,
            CharClass::Exactly('/'),
        ) + seq!['/'] + trim_start_class(value, CharClass::Exactly('/'))
    }
}

/// The address a card shows for the stored media reference `value`.
pub fn media_url(value: &str, fallback: &str, media: &MediaConfig) -> (url: String)
    ensures
        url@ == media_link(value@, fallback@, media.base@, media.bucket@),
{
    let v = chars_of(value);
    if v.len() == 0 {
        return owned(fallback);
    }
    let http = chars_of("http://");
    let https = chars_of("https://");
    if starts_with_chars(v.as_slice(), http.as_slice()) || starts_with_chars(
        v.as_slice(),
        https.as_slice(),
    ) {
        return owned(value);
    }
    let base = chars_of(media.base.as_str());
    let bucket = chars_of(media.bucket.as_str());
    let mut out = trim_end_chars(base.as_slice(), CharClass::Exactly('/'));
    out.push('/');
    let mut b = trim_chars(bucket.as_slice(), CharClass::Exactly('/'));
    out.append(&mut b);
    out.push('/');
    let mut rest = trim_start_chars(v.as_slice(), CharClass::Exactly('/'));
    out.append(&mut rest);
    string_of(out.as_slice())
}

/// `10^k`.
pub open spec fn pow10(k: nat) -> nat
    decreases k,
{
    if k == 0 {
        1
    } else {
        10 * pow10((k - 1) as nat)
    }
}

/// The coefficient, at one decimal place or fewer, of the decimal with
/// coefficient magnitude `m` and scale `s` rounded half to even: unchanged
/// when `s` is at most 1, else the `s - 1` last digits dropped and the rest
/// raised by one when they were more than half, or exactly half with an odd
/// rest.
pub open spec fn rounded_magnitude(m: nat, s: nat) -> nat {
    if s <= 1 {
        m
    } else {
        let k = (s - 1) as nat;
        let q = m / pow10(k);
        let r = m % pow10(k);
        let half = 5 * pow10((k - 1) as nat);
        if r > half || (r == half && q % 2 == 1) {
            q + 1
        } else {
            q
        }
    }
}

/// What `Decimal::round_dp(1)` followed by `to_string()` writes for the
/// decimal `mantissa / 10^scale`: the value rounded half to even to at most
/// one decimal place; with scale 0 the integer alone (`18`), otherwise the
/// integer part, a point and one digit (`18.4`, `0.0`); a `-` before a
/// negative value that does not round to zero.
pub open spec fn one_place_text(mantissa: i128, scale: u32) -> Seq<char> {
    let m = if mantissa < 0 {
        (-mantissa) as nat
    } else {
        mantissa as nat
    };
    let q = rounded_magnitude(m, scale as nat);
    let digits = if scale == 0 {
        nat_text(q)
    } else {
        nat_text(q / 10) + seq!['.', digit_char((q % 10) as int)]
    };
    if mantissa < 0 && q != 0 {
        seq!['-'] + digits
    } else {
        digits
    }
}

/// Writes a distance rounded to at most one decimal place, with
/// `rust_decimal`'s `Decimal::from_i128_with_scale`, `round_dp(1)` (midpoint
/// to even) and `Display`. Claimed: the text is `one_place_text` of the
/// coefficient and scale. `requires` keeps out the decimals that
/// `from_i128_with_scale` panics on.
#[verifier::external_body]
fn distance_text(d: &DecimalValue) -> (s: String)
    requires
        d.wf(),
    ensures
        s@ == one_place_text(d.mantissa, d.scale),
{
    sea_orm::prelude::Decimal::from_i128_with_scale(d.mantissa, d.scale).round_dp(1).to_string()
}

/// The card of `star` with the distance already written as `distance_kpc`.
pub open spec fn card_of(
    star: Star,
    distance_kpc: Seq<char>,
    likes_count: i64,
    media: MediaConfig,
    card: StarTemplate,
) -> bool {
    &&& card.id == star.star_id
    &&& card.name@ == star.star_name@
    &&& card.catalog_id@ == star.star_catalog_id@
    &&& card.distance_kpc@ == distance_kpc
    &&& card.velocity_kms == star.velocity_kms
    &&& card.status@ == star.star_status@
    &&& card.description@ == star.star_description@
    &&& card.image_url@ == media_link(
        star.image_url@,
        default_image_text(),
        media.base@,
        media.bucket@,
    )
    &&& card.video_url@ == media_link(
        star.video_url@,
        default_video_text(),
        media.base@,
        media.bucket@,
    )
    &&& card.likes_count == likes_count
}

/// The card of `star` once its distance is written as `distance_kpc`.
pub fn card_with_distance(
    star: Star,
    distance_kpc: String,
    likes_count: i64,
    media: &MediaConfig,
) -> (card: StarTemplate)
    ensures
        card_of(star, distance_kpc@, likes_count, *media, card),
{
    let image_url = media_url(star.image_url.as_str(), DEFAULT_IMAGE_URL, media);
    let video_url = media_url(star.video_url.as_str(), DEFAULT_VIDEO_URL, media);
    StarTemplate {
        id: star.star_id,
        name: star.star_name,
        catalog_id: star.star_catalog_id,
        distance_kpc,
        velocity_kms: star.velocity_kms,
        status: star.star_status,
        description: star.star_description,
        image_url,
        video_url,
        likes_count,
    }
}

/// The card that pages show for `star` with `likes_count` likes.
pub fn to_template(star: Star, likes_count: i64, media: &MediaConfig) -> (card: StarTemplate)
    requires
        star.distance_kpc.wf(),
    ensures
        card_of(
            star,
            one_place_text(star.distance_kpc.mantissa, star.distance_kpc.scale),
            likes_count,
            *media,
            card,
        ),
{
    let distance = distance_text(&star.distance_kpc);
    card_with_distance(star, distance, likes_count, media)
}

/// Whether `card` is the card of a draft that has not been started yet.
pub open spec fn is_empty_draft_card(card: StarTemplate) -> bool {
    &&& card.id == 0
    &&& card.name@.len() == 0
    &&& card.catalog_id@.len() == 0
    &&& card.distance_kpc@ == "0.0"@
    &&& card.velocity_kms == 0
    &&& card.status@ == "new"@
    &&& card.description@.len() == 0
    &&& card.image_url@ == default_image_text()
    &&& card.video_url@ == default_video_text()
    &&& card.likes_count == 0
}

/// The card of a draft that has not been started yet.
pub fn empty_draft_template() -> (card: StarTemplate)
    ensures
        is_empty_draft_card(card),
{
    StarTemplate {
        id: 0,
        name: String::new(),
        catalog_id: String::new(),
        distance_kpc: owned("0.0"),
        velocity_kms: 0,
        status: owned("new"),
        description: String::new(),
        image_url: owned(DEFAULT_IMAGE_URL),
        video_url: owned(DEFAULT_VIDEO_URL),
        likes_count: 0,
    }
}

/// The card of the draft page: the user's draft with its likes, or an empty
/// one when the user has none.
pub fn draft_template(draft: Option<(Star, i64)>, media: &MediaConfig) -> (card: StarTemplate)
    requires
        draft matches Some((star, _)) ==> star.distance_kpc.wf(),
    ensures
        draft matches Some((star, likes)) ==> card_of(
            star,
            one_place_text(star.distance_kpc.mantissa, star.distance_kpc.scale),
            likes,
            *media,
            card,
        ),
        draft is None ==> is_empty_draft_card(card),
{
    match draft {
        Some((star, likes)) => to_template(star, likes, media),
        None => empty_draft_template(),
    }
}

pub open spec fn bad_id_text() -> Seq<char> {
    "id звезды должен быть целым числом или first"@
}

/// Which star the feed page looks up.
#[derive(Debug, Clone, Copy, PartialEq, Eq, Structural)]
pub enum FeedLookup {
    /// The published star with the smallest id.
    First,
    /// The published star with the smallest id above the given one.
    After(i64),
    /// The published star with the given id.
    Exact(i64),
}

/// The lookup that the feed address `requested` and its query ask for:
/// `first`, or a star id, read as `str::parse::<i64>` reads it; `None` for
/// anything else.
pub open spec fn feed_lookup_of(requested: Seq<char>, next: Option<bool>) -> Option<FeedLookup> {
    if requested == "first"@ {
        Some(FeedLookup::First)
    } else {
        match parsed_i64(requested) {
            None => None,
            Some(id) => if next == Some(true) {
                Some(FeedLookup::After(id))
            } else {
                Some(FeedLookup::Exact(id))
            },
        }
    }
}

/// Reads the feed address `requested` with its query; refuses an address
/// that is neither `first` nor a star id.
pub fn feed_lookup(requested: &str, query: &FeedQuery) -> (r: Result<FeedLookup, AppError>)
    ensures
        match feed_lookup_of(requested@, query.next) {
            Some(l) => r == Ok::<FeedLookup, AppError>(l),
            None => r matches Err(e) && is_validation(e, bad_id_text()),
        },
{
    let v = chars_of(requested);
    let first = chars_of("first");
    if crate::text::chars_equal(v.as_slice(), first.as_slice()) {
        return Ok(FeedLookup::First);
    }
    match parse_i64(v.as_slice()) {
        None => Err(AppError::validation("id звезды должен быть целым числом или first")),
        Some(id) => {
            let next = match query.next {
                Some(b) => b,
                None => false,
            };
            if next {
                Ok(FeedLookup::After(id))
            } else {
                Ok(FeedLookup::Exact(id))
            }
        },
    }
}

/// What the feed page does once a lookup has been answered.
#[derive(Debug, Clone, Copy, PartialEq, Eq, Structural)]
pub enum FeedAction {
    /// Show the star that was found.
    Show,
    /// Nothing follows the given star: start over from the first one.
    LookUpFirst,
    /// Answer that the star is missing.
    Missing,
}

/// The next step of the feed page after `lookup` found a star or not.
pub fn feed_action(lookup: FeedLookup, found: bool) -> (a: FeedAction)
    ensures
        found ==> a == FeedAction::Show,
        !found && lookup is After ==> a == FeedAction::LookUpFirst,
        !found && !(lookup is After) ==> a == FeedAction::Missing,
{
    if found {
        FeedAction::Show
    } else {
        match lookup {
            FeedLookup::After(_) => FeedAction::LookUpFirst,
            _ => FeedAction::Missing,
        }
    }
}

/// The error of a feed address whose star is missing or deleted.
pub fn missing_star_error(requested: &str) -> (e: AppError)
    ensures
        is_not_found(e, "звезда "@ + requested@ + " отсутствует или удалена"@),
{
    let mut m = String::from_str("звезда ");
    m.append(requested);
    m.append(" отсутствует или удалена");
    AppError::NotFound(m)
}

/// The address of the feed page of star `star_id`.
pub open spec fn star_path(star_id: i64) -> Seq<char> {
    "/andromeda-stars/"@ + int_text(star_id as int)
}

/// The address of the feed page of star `star_id`.
pub fn star_location(star_id: i64) -> (path: String)
    ensures
        path@ == star_path(star_id),
{
    let mut v = chars_of("/andromeda-stars/");
    let mut digits = i64_text(star_id);
    v.append(&mut digits);
    string_of(v.as_slice())
}

/// The feed address that a publication sends the browser to, read back by
/// the feed page, looks up exactly the star that was published.
pub proof fn lemma_published_link_resolves(star_id: i64, next: Option<bool>)
    requires
        next != Some(true),
    ensures
        feed_lookup_of(int_text(star_id as int), next) == Some(FeedLookup::Exact(star_id)),
{
    let t = int_text(star_id as int);
    crate::number::lemma_parse_text_roundtrip(star_id);
    reveal_strlit("first");
    if star_id < 0 {
        assert(t[0] == '-');
    } else {
        crate::number::lemma_nat_text(star_id as nat);
    }
    assert(t[0] != "first"@[0]);
}

/// The user whose cards the pages show: the configured name, or
/// `andromeda_student` when none is configured.
pub fn current_username(configured: Option<String>) -> (name: String)
    ensures
        name@ == (match configured {
            Some(n) => n@,
            None => "andromeda_student"@,
        }),
{
    match configured {
        Some(n) => n,
        None => owned("andromeda_student"),
    }
}

/// The id of the user found under `username`; an error when there is none.
pub fn user_id_of(user: Option<User>, username: &str) -> (r: Result<i64, AppError>)
    ensures
        user matches Some(u) ==> r == Ok::<i64, AppError>(u.user_id),
        user is None ==> (r matches Err(e) && is_not_found(
            e,
            "пользователь Андромеды с именем "@ + username@,
        )),
{
    match user {
        Some(u) => Ok(u.user_id),
        None => {
            let mut m = String::from_str("пользователь Андромеды с именем ");
            m.append(username);
            Err(AppError::NotFound(m))
        },
    }
}

/// The number of likes of a card as the pages show it: the count read as an
/// `i64`, as `count as i64` converts it.
pub fn likes_total(count: u64) -> (n: i64)
    ensures
        n == count as i64,
{
    count as i64
}

/// The page a draft lives on; creating one sends the browser there.
pub open spec fn draft_path() -> Seq<char> {
    "/andromeda-stars/draft"@
}

/// The page a draft lives on.
pub fn draft_location() -> (path: String)
    ensures
        path@ == draft_path(),
{
    owned("/andromeda-stars/draft")
}

pub open spec fn is_lower_hex(c: char) -> bool {
    ('0' <= c && c <= '9') || ('a' <= c && c <= 'f')
}

/// The hyphenated lower-case form of a UUID: 36 characters, hyphens at
/// positions 8, 13, 18 and 23, hexadecimal digits elsewhere.
pub open spec fn is_hyphenated_uuid(s: Seq<char>) -> bool {
    &&& s.len() == 36
    &&& forall|i: int|
        0 <= i < 36 ==> if i == 8 || i == 13 || i == 18 || i == 23 {
            #[trigger] s[i] == '-'
        } else {
            is_lower_hex(s[i])
        }
}

/// The text of a version 4 UUID: the hyphenated form, with the version
/// digit `4` at position 14 and a variant digit `8`, `9`, `a` or `b` at
/// position 19.
pub open spec fn is_v4_uuid_text(s: Seq<char>) -> bool {
    &&& is_hyphenated_uuid(s)
    &&& s[14] == '4'
    &&& (s[19] == '8' || s[19] == '9' || s[19] == 'a' || s[19] == 'b')
}

/// A fresh random UUID (`uuid::Uuid::new_v4`) written by its `Display`.
/// Claimed: the text is the hyphenated lower-case form of a version 4 UUID
/// (`new_v4` masks in the version and variant bits); which UUID comes out
/// is left unsaid, as it is drawn at random.
#[verifier::external_body]
fn random_uuid_text() -> (s: String)
    ensures
        is_v4_uuid_text(s@),
{
    uuid::Uuid::new_v4().to_string()
}

pub open spec fn draft_catalog_prefix() -> Seq<char> {
    "M31-DRAFT-"@
}

/// The catalogue id of a new draft made from the UUID text `uuid`.
pub fn draft_catalog_id(uuid: &str) -> (id: String)
    ensures
        id@ == draft_catalog_prefix() + uuid@,
{
    let mut id = String::from_str("M31-DRAFT-");
    id.append(uuid);
    id
}

/// A star card to be stored.
#[derive(Debug, Clone)]
pub struct NewStar {
    pub created_by: i64,
    pub star_name: String,
    pub star_catalog_id: String,
    pub distance_kpc: DecimalValue,
    pub velocity_kms: i32,
    pub star_status: String,
    pub star_description: String,
    pub image_url: String,
    pub video_url: String,
}

/// Whether `card` is the new draft of `form` by `user_id` with the catalogue
/// id `catalog_id`.
pub open spec fn is_new_draft(
    form: DraftForm,
    user_id: i64,
    catalog_id: Seq<char>,
    card: NewStar,
) -> bool {
    &&& card.created_by == user_id
    &&& card.star_name@ == crate::text::trimmed(form.name@)
    &&& card.star_catalog_id@ == catalog_id
    &&& card.distance_kpc == DecimalValue::zero_value()
    &&& card.velocity_kms == 0
    &&& card.star_status@ == "draft"@
    &&& card.star_description@.len() == 0
    &&& card.image_url@.len() == 0
    &&& card.video_url@.len() == 0
}

/// The draft that `form` starts for `user_id`, under `catalog_id`.
pub fn new_draft(form: &DraftForm, user_id: i64, catalog_id: String) -> (card: NewStar)
    ensures
        is_new_draft(*form, user_id, catalog_id@, card),
{
    NewStar {
        created_by: user_id,
        star_name: crate::text::trim(form.name.as_str()),
        star_catalog_id: catalog_id,
        distance_kpc: DecimalValue::zero(),
        velocity_kms: 0,
        star_status: owned("draft"),
        star_description: String::new(),
        image_url: String::new(),
        video_url: String::new(),
    }
}

/// What a draft request stores: nothing when the user already has a draft,
/// else a new draft under a catalogue id made from a fresh random UUID.
pub fn draft_to_create(form: &DraftForm, user_id: i64, has_draft: bool) -> (r: Option<NewStar>)
    ensures
        has_draft ==> r is None,
        !has_draft ==> (r matches Some(card) && is_v4_uuid_text(
            card.star_catalog_id@.subrange(10, 46),
        ) && card.star_catalog_id@.len() == 46 && is_new_draft(
            *form,
            user_id,
            draft_catalog_prefix() + card.star_catalog_id@.subrange(10, 46),
            card,
        )),
{
    if has_draft {
        return None;
    }
    let uuid = random_uuid_text();
    let id = draft_catalog_id(uuid.as_str());
    proof {
        reveal_strlit("M31-DRAFT-");
        assert(id@.subrange(10, 46) =~= uuid@);
    }
    Some(new_draft(form, user_id, id))
}

/// The error of a publication whose draft is not the user's or not a draft.
pub fn missing_draft_error() -> (e: AppError)
    ensures
        is_not_found(e, "черновик звезды"@),
{
    AppError::not_found("черновик звезды")
}

/// The fields a publication writes over a draft.
#[derive(Debug, Clone)]
pub struct PublishChanges {
    pub star_name: String,
    pub star_catalog_id: String,
    pub velocity_kms: i32,
    pub star_description: String,
    pub star_status: String,
}

/// The fields that publishing `form` writes: its texts trimmed, its velocity,
/// and the status `published`.
pub fn publish_changes(form: &PublishForm) -> (c: PublishChanges)
    ensures
        c.star_name@ == crate::text::trimmed(form.name@),
        c.star_catalog_id@ == crate::text::trimmed(form.catalog_id@),
        c.velocity_kms == form.velocity_kms,
        c.star_description@ == crate::text::trimmed(form.description@),
        c.star_status@ == "published"@,
{
    PublishChanges {
        star_name: crate::text::trim(form.name.as_str()),
        star_catalog_id: crate::text::trim(form.catalog_id.as_str()),
        velocity_kms: form.velocity_kms,
        star_description: crate::text::trim(form.description.as_str()),
        star_status: owned("published"),
    }
}

/// The grid page; deleting a card sends the browser there.
pub open spec fn grid_path() -> Seq<char> {
    "/andromeda-stars/grid"@
}

/// What a deletion answers: the grid page when a card was marked deleted,
/// an error when no active card had the id.
pub fn delete_outcome(rows_affected: u64) -> (r: Result<String, AppError>)
    ensures
        rows_affected == 0 ==> (r matches Err(e) && is_not_found(
            e,
            "активная карточка звезды"@,
        )),
        rows_affected != 0 ==> (r matches Ok(path) && path@ == grid_path()),
{
    if rows_affected == 0 {
        return Err(AppError::not_found("активная карточка звезды"));
    }
    Ok(owned("/andromeda-stars/grid"))
}

/// Cards on one grid page.
pub const PAGE_SIZE: u64 = 20;

/// The grid page a query asks for: page 1 when it names none or page 0.
pub open spec fn page_number_of(page: Option<usize>) -> usize {
    match page {
        Some(p) => if p >= 1 {
            p
        } else {
            1
        },
        None => 1,
    }
}

/// Number of cards before the first card of page `number`.
pub open spec fn page_offset(number: usize) -> int {
    (number - 1) * PAGE_SIZE
}

/// The page of the grid that a query asks for.
#[derive(Debug, Clone, Copy, PartialEq, Eq, Structural)]
pub struct GridPage {
    /// Its number, from 1.
    pub number: usize,
    /// How many cards come before it.
    pub offset: u64,
    /// How many cards it holds at most.
    pub limit: u64,
}

/// The page of the grid for the page number `page` of a query. Cards before
/// it are skipped; the `requires` leaves out the page numbers whose offset
/// overflows a `u64`, on which the offset's multiplication panics.
pub fn grid_page(page: Option<usize>) -> (g: GridPage)
    requires
        page_offset(page_number_of(page)) <= u64::MAX,
    ensures
        g.number == page_number_of(page),
        g.offset == page_offset(g.number),
        g.limit == PAGE_SIZE,
{
    let number = match page {
        Some(p) => if p >= 1 {
            p
        } else {
            1
        },
        None => 1,
    };
    let offset = ((number - 1) as u64) * PAGE_SIZE;
    GridPage { number, offset, limit: PAGE_SIZE }
}

/// The distance bound that a grid query asks for: the text to show back in
/// the filter, and the text to read as a number, with `,` as a decimal point
/// turned into `.`; no number when the filter is blank.
#[derive(Debug, Clone)]
pub struct DistanceFilter {
    pub shown: String,
    pub number_text: Option<String>,
}

/// The distance bound of a grid query.
pub fn distance_filter(filter: &StarsFilter) -> (d: DistanceFilter)
    ensures
        d.shown@ == crate::text::trimmed(
            match filter.distance_kpc {
                Some(t) => t@,
                None => Seq::<char>::empty(),
            },
        ),
        d.shown@.len() == 0 ==> d.number_text is None,
        d.shown@.len() != 0 ==> (d.number_text matches Some(t) && t@
            == crate::text::replace_char(d.shown@, ',', '.')),
{
    let raw = match &filter.distance_kpc {
        Some(t) => chars_of(t.as_str()),
        None => Vec::new(),
    };
    let shown = trim_chars(raw.as_slice(), CharClass::WhiteSpace);
    if shown.len() == 0 {
        return DistanceFilter { shown: string_of(shown.as_slice()), number_text: None };
    }
    let number = crate::text::replace_chars(shown.as_slice(), ',', '.');
    DistanceFilter {
        shown: string_of(shown.as_slice()),
        number_text: Some(string_of(number.as_slice())),
    }
}

/// What the grid page shows about the cards of one page.
#[derive(Debug, Clone)]
pub struct GridSummary {
    /// Whether the page has any card.
    pub has_stars: bool,
    /// Whether the page is full, so that a next page may hold more.
    pub has_more: bool,
    /// The image of the first card, or nothing.
    pub cover_image_url: String,
    /// The number of the next page.
    pub next_page: usize,
}

/// The number of the page after page `number`, stopping at the largest.
pub open spec fn next_page_number(number: usize) -> usize {
    if number < usize::MAX {
        (number + 1) as usize
    } else {
        usize::MAX
    }
}

/// What the grid page shows about `cards`, the cards of `page`.
pub fn grid_summary(page: &GridPage, cards: &Vec<StarTemplate>) -> (s: GridSummary)
    ensures
        s.has_stars == (cards@.len() > 0),
        s.has_more == (cards@.len() == page.limit),
        cards@.len() > 0 ==> s.cover_image_url@ == cards@[0].image_url@,
        cards@.len() == 0 ==> s.cover_image_url@.len() == 0,
        s.next_page == next_page_number(page.number),
{
    let cover_image_url = if cards.len() > 0 {
        cards[0].image_url.clone()
    } else {
        String::new()
    };
    GridSummary {
        has_stars: cards.len() > 0,
        has_more: cards.len() as u64 == page.limit,
        cover_image_url,
        next_page: page.number.saturating_add(1),
    }
}

/// Consecutive grid pages follow each other: the page that a page links to
/// as the next one starts with the card after its last one.
pub proof fn lemma_next_page_follows(number: usize)
    requires
        1 <= number < usize::MAX,
    ensures
        page_number_of(Some(next_page_number(number))) == number + 1,
        page_offset(page_number_of(Some(next_page_number(number)))) == page_offset(number)
            + PAGE_SIZE,
{
}

/// A draft that passes validation is stored under a name that is not empty
/// and has no white space left to trim.
pub proof fn lemma_valid_draft_name(
    form: DraftForm,
    user_id: i64,
    catalog_id: Seq<char>,
    card: NewStar,
)
    requires
        !crate::forms::is_blank(form.name@),
        is_new_draft(form, user_id, catalog_id, card),
    ensures
        card.star_name@.len() > 0,
        crate::text::trimmed(card.star_name@) == card.star_name@,
{
    crate::text::lemma_trim_idempotent(form.name@, CharClass::WhiteSpace);
}

/// A publication that passes validation writes a name, a catalogue id and a
/// description that are not empty and have no white space left to trim,
/// and a velocity that is not negative.
pub proof fn lemma_valid_publication(form: PublishForm, c: PublishChanges)
    requires
        !crate::forms::is_blank(form.name@),
        !crate::forms::is_blank(form.catalog_id@),
        form.velocity_kms >= 0,
        !crate::forms::is_blank(form.description@),
        c.star_name@ == crate::text::trimmed(form.name@),
        c.star_catalog_id@ == crate::text::trimmed(form.catalog_id@),
        c.velocity_kms == form.velocity_kms,
        c.star_description@ == crate::text::trimmed(form.description@),
    ensures
        c.star_name@.len() > 0 && crate::text::trimmed(c.star_name@) == c.star_name@,
        c.star_catalog_id@.len() > 0 && crate::text::trimmed(c.star_catalog_id@)
            == c.star_catalog_id@,
        c.star_description@.len() > 0 && crate::text::trimmed(c.star_description@)
            == c.star_description@,
        c.velocity_kms >= 0,
{
    crate::text::lemma_trim_idempotent(form.name@, CharClass::WhiteSpace);
    crate::text::lemma_trim_idempotent(form.catalog_id@, CharClass::WhiteSpace);
    crate::text::lemma_trim_idempotent(form.description@, CharClass::WhiteSpace);
}

/// With an object store whose address stays absolute once its trailing
/// slashes are dropped, the link of every stored media reference is
/// absolute, so resolving it once more leaves it unchanged.
pub proof fn lemma_media_link_stable(
    value: Seq<char>,
    fallback: Seq<char>,
    base: Seq<char>,
    bucket: Seq<char>,
)
    requires
        is_absolute_link(trim_end_class(base, CharClass::Exactly('/'))),
        value.len() > 0,
    ensures
        is_absolute_link(media_link(value, fallback, base, bucket)),
        media_link(media_link(value, fallback, base, bucket), fallback, base, bucket)
            == media_link(value, fallback, base, bucket),
{
    let b = trim_end_class(base, CharClass::Exactly('/'));
    let link = media_link(value, fallback, base, bucket);
    if !is_absolute_link(value) {
        let rest = seq!['/'] + trim_class(bucket, CharClass::Exactly('/')) + seq!['/']
            + trim_start_class(value, CharClass::Exactly('/'));
        assert(link =~= b + rest);
        if is_prefix("http://"@, b) {
            assert(link.subrange(0, "http://"@.len() as int) =~= b.subrange(
                0,
                "http://"@.len() as int,
            ));
        } else {
            assert(link.subrange(0, "https://"@.len() as int) =~= b.subrange(
                0,
                "https://"@.len() as int,
            ));
        }
    }
    assert(is_absolute_link(link));
    if link.len() == 0 {
        reveal_strlit("http://");
        reveal_strlit("https://");
    }
}

/// The entry address `first` looks up the first published star whatever
/// the query says, and every other address looks up by id, `next` choosing
/// between the star itself and the one after it.
pub proof fn lemma_feed_entry_is_first(requested: Seq<char>, next: Option<bool>)
    ensures
        feed_lookup_of("first"@, next) == Some(FeedLookup::First),
        requested != "first"@ && parsed_i64(requested) is Some ==> feed_lookup_of(
            requested,
            next,
        ) == Some(
            if next == Some(true) {
                FeedLookup::After(parsed_i64(requested)->0)
            } else {
                FeedLookup::Exact(parsed_i64(requested)->0)
            },
        ),
{
}

/// A page number of at least 1 in the query is the page shown; no page
/// number, or 0, shows page 1, whose cards start at the first one.
pub proof fn lemma_page_number_kept(p: usize)
    ensures
        p >= 1 ==> page_number_of(Some(p)) == p,
        page_number_of(Some(0)) == 1,
        page_number_of(None) == 1,
        page_offset(page_number_of(None)) == 0,
        page_offset(page_number_of(Some(1))) == 0,
{
}

proof fn lemma_trim_end_slash(b: Seq<char>)
    ensures
        trim_end_class(b.push('/'), CharClass::Exactly('/')) == trim_end_class(
            b,
            CharClass::Exactly('/'),
        ),
        (b.len() == 0 || b.last() != '/') ==> trim_end_class(b, CharClass::Exactly('/')) == b,
{
    assert(b.push('/').drop_last() =~= b);
}

/// The link of a relative stored media reference does not depend on the
/// slashes around the configured parts: a trailing slash on the store
/// address, slashes around the bucket or leading slashes on the reference
/// give the same link; and a store address without a trailing slash is
/// followed by exactly one slash.
pub proof fn lemma_media_link_slashes(
    value: Seq<char>,
    fallback: Seq<char>,
    base: Seq<char>,
    bucket: Seq<char>,
)
    requires
        value.len() > 0,
        !is_absolute_link(value),
    ensures
        media_link(value, fallback, base.push('/'), bucket) == media_link(
            value,
            fallback,
            base,
            bucket,
        ),
        media_link(value, fallback, base, seq!['/'] + bucket.push('/')) == media_link(
            value,
            fallback,
            base,
            bucket,
        ),
        media_link(seq!['/'] + value, fallback, base, bucket) == media_link(
            value,
            fallback,
            base,
            bucket,
        ),
        (base.len() == 0 || base.last() != '/') ==> is_prefix(
            base.push('/'),
            media_link(value, fallback, base, bucket),
        ),
{
    let slash = CharClass::Exactly('/');
    lemma_trim_end_slash(base);
    crate::text::lemma_trim_ignores_padding(bucket, '/', slash);
    crate::text::lemma_trim_ignores_padding(bucket.push('/'), '/', slash);
    assert(seq!['/'] + bucket.push('/') =~= (seq!['/'] + bucket).push('/'));
    crate::text::lemma_trim_ignores_padding(seq!['/'] + bucket, '/', slash);
    assert(trim_start_class(seq!['/'] + value, slash) == trim_start_class(value, slash)) by {
        assert((seq!['/'] + value).drop_first() =~= value);
    }
    let v2 = seq!['/'] + value;
    assert(!is_absolute_link(v2)) by {
        reveal_strlit("http://");
        reveal_strlit("https://");
        if is_prefix("http://"@, v2) {
            assert(v2.subrange(0, 7)[0] == v2[0]);
        }
        if is_prefix("https://"@, v2) {
            assert(v2.subrange(0, 8)[0] == v2[0]);
        }
    }
    let link = media_link(value, fallback, base, bucket);
    if base.len() == 0 || base.last() != '/' {
        let rest = trim_class(bucket, slash) + seq!['/'] + trim_start_class(value, slash);
        assert(link =~= base.push('/') + rest);
        assert(link.subrange(0, base.push('/').len() as int) =~= base.push('/'));
    }
}

} // verus!
