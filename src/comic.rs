use vstd::prelude::*;
use vstd::string::*;
use vstd::utf8::encode_utf8;
use crate::opt_view;

verus! {

/// CSS class of the element whose first child carries the strip's image.
pub const IMAGE_MARKER: &'static str = "item-comic-image";

/// Attribute of that child that holds the image address.
pub const IMAGE_ATTR: &'static str = "src";

/// Most `<` characters a page may hold to be parsed. The parsed tree nests at
/// most twice as deep as there are `<` characters, plus the three implied
/// elements, and select builds its document by one recursive call per level;
/// the bound keeps that well within the parsing thread's stack.
pub const MAX_ANGLES: usize = 16_384;

/// Day number of 1970-01-01.
pub const EPOCH_DAY: i32 = 719_163;

/// Day numbers of the first and last dates chrono represents: 1 January of
/// the year -262143 and 31 December of the year 262142.
pub const FIRST_DAY: i32 = -95_746_129;

pub const LAST_DAY: i32 = 95_745_399;

/// Address of the strip's pages; the date follows as `YYYY/MM/DD`.
pub open spec fn page_prefix() -> Seq<char> {
    "https://www.gocomics.com/garfield/"@
}

/// chrono's `%Y/%m/%d` text of the date `day` (counted from the common era,
/// day 1 being 0001-01-01), absent where chrono has no such date.
pub uninterp spec fn date_path(day: int) -> Option<Seq<char>>;

/// The value of `attr` on the first child element of the first element of
/// class `class` in the HTML document `html`, as the select crate finds it.
pub uninterp spec fn first_child_attr(html: Seq<char>, class: Seq<char>, attr: Seq<char>) -> Option<
    Seq<char>,
>;

/// Relies on chrono's `NaiveDate::from_num_days_from_ce_opt`, which gives a
/// date for every day number from `NaiveDate::MIN` to `NaiveDate::MAX`, and
/// its `%Y/%m/%d` formatting, which cannot fail on a date.
#[verifier::external_body]
fn format_day(day: i32) -> (r: Option<String>)
    ensures
        opt_view(r) == date_path(day as int),
        FIRST_DAY <= day <= LAST_DAY ==> r is Some,
{
    chrono::NaiveDate::from_num_days_from_ce_opt(day).map(|d| d.format("%Y/%m/%d").to_string())
}

/// Relies on chrono's `Utc::now` with `Datelike::num_days_from_ce`: today's
/// UTC date as a day number. Which day depends on the clock; `Utc::now` never
/// reads before 1970-01-01, and the day is always one that chrono represents,
/// so `from_num_days_from_ce_opt` takes it back.
#[verifier::external_body]
fn utc_today_day() -> (r: i32)
    ensures
        date_path(r as int) is Some,
        EPOCH_DAY <= r <= LAST_DAY,
{
    chrono::Datelike::num_days_from_ce(&chrono::Utc::now().date_naive())
}

/// Relies on select's `Document::from`, `find(Class(..))`, `Node::children`
/// with the `Element` predicate, and `Node::attr`: the attribute of the first
/// child element of the first marked node. Parsing copies the text into a
/// tendril, which holds at most `u32::MAX` bytes. Building the document
/// recurses once per level of nesting; the bound on `<` characters bounds that
/// depth (see `MAX_ANGLES`).
#[verifier::external_body]
fn select_first_child_attr(html: &str, class: &str, attr: &str) -> (r: Option<String>)
    requires
        encode_utf8(html@).len() <= u32::MAX,
        angle_count(encode_utf8(html@)) <= MAX_ANGLES,
    ensures
        opt_view(r) == first_child_attr(html@, class@, attr@),
{
    select::document::Document::from(html)
        .find(select::predicate::Class(class))
        .next()
        .and_then(|node| node.children().find(|c| c.is(select::predicate::Element)))
        .and_then(|node| node.attr(attr))
        .map(|v| v.to_owned())
}

/// The page address for the date `day`, absent where that date has no text.
pub open spec fn page_address(day: int) -> Option<Seq<char>> {
    if i32::MIN <= day <= i32::MAX {
        match date_path(day) {
            Some(p) => Some(page_prefix() + p),
            None => None,
        }
    } else {
        None
    }
}

/// The page address for `days_ago` days before the day `today`.
pub open spec fn page_for(today: i32, days_ago: i64) -> Option<Seq<char>> {
    page_address(today - days_ago)
}

/// The page to request for the strip `days_ago` days before the day `today`.
pub fn page_url(today: i32, days_ago: i64) -> (r: Option<String>)
    ensures
        opt_view(r) == page_address(today - days_ago),
        FIRST_DAY <= today - days_ago <= LAST_DAY ==> r is Some,
{
    // The date must stay within the day numbers that chrono takes.
    if days_ago > today as i64 - i32::MIN as i64 || days_ago < today as i64 - i32::MAX as i64 {
        return None;
    }
    let day: i64 = today as i64 - days_ago;
    match format_day(day as i32) {
        Some(path) => {
            let prefix = String::from_str("https://www.gocomics.com/garfield/");
            proof {
                reveal_strlit("https://www.gocomics.com/garfield/");
            }
            Some(prefix.concat(path.as_str()))
        },
        None => None,
    }
}

/// The page to request for the strip `days_ago` days before today's UTC date.
pub fn previous_garfield_url(days_ago: i64) -> (r: Option<String>)
    ensures
        exists|today: i32|
            date_path(today as int) is Some && #[trigger] page_for(today, days_ago) == opt_view(r),
        0 <= days_ago <= EPOCH_DAY - FIRST_DAY ==> r is Some,
{
    let today = utc_today_day();
    let r = page_url(today, days_ago);
    assert(date_path(today as int) is Some && page_for(today, days_ago) == opt_view(r));
    r
}

/// The number of `<` bytes in `bytes`.
pub open spec fn angle_count(bytes: Seq<u8>) -> nat
    decreases bytes.len(),
{
    if bytes.len() == 0 {
        0
    } else {
        angle_count(bytes.drop_last()) + if bytes.last() == 0x3c {
            1nat
        } else {
            0nat
        }
    }
}

/// Whether a page is too large to parse safely: over `u32::MAX` bytes of
/// UTF-8, or over `MAX_ANGLES` `<` characters.
pub open spec fn too_long(html: Seq<char>) -> bool {
    encode_utf8(html).len() > u32::MAX || angle_count(encode_utf8(html)) > MAX_ANGLES
}

/// Whether `bytes` holds more than `MAX_ANGLES` `<` bytes.
fn too_many_angles(bytes: &[u8]) -> (r: bool)
    ensures
        r == (angle_count(bytes@) > MAX_ANGLES),
{
    let mut count: usize = 0;
    let mut i: usize = 0;
    while i < bytes.len()
        invariant
            i <= bytes@.len(),
            count == angle_count(bytes@.take(i as int)),
            count <= MAX_ANGLES,
        decreases bytes@.len() - i,
    {
        assert(bytes@.take(i + 1).drop_last() =~= bytes@.take(i as int));
        if bytes[i] == 0x3c {
            if count == MAX_ANGLES {
                proof {
                    lemma_angle_count_prefix(bytes@, i + 1);
                }
                return true;
            }
            count = count + 1;
        }
        i = i + 1;
    }
    assert(bytes@.take(i as int) =~= bytes@);
    false
}

/// A prefix holds no more `<` bytes than the whole.
proof fn lemma_angle_count_prefix(bytes: Seq<u8>, n: int)
    requires
        0 <= n <= bytes.len(),
    ensures
        angle_count(bytes.take(n)) <= angle_count(bytes),
    decreases bytes.len(),
{
    if n < bytes.len() {
        assert(bytes.drop_last().take(n) =~= bytes.take(n));
        lemma_angle_count_prefix(bytes.drop_last(), n);
    } else {
        assert(bytes.take(n) =~= bytes);
    }
}

/// The image found in a fetched page: absent where the fetch failed, the body
/// is empty or too large to parse safely, or the page lacks the marked element, its
/// child element or the attribute.
pub open spec fn image_of(fetched: Option<Seq<char>>) -> Option<Seq<char>> {
    match fetched {
        None => None,
        Some(html) => if html.len() == 0 || too_long(html) {
            None
        } else {
            first_child_attr(html, IMAGE_MARKER@, IMAGE_ATTR@)
        },
    }
}

/// The strip's image address in the body of a fetched page, if any.
pub fn garfield_from_page(fetched: Option<String>) -> (r: Option<String>)
    ensures
        opt_view(r) == image_of(opt_view(fetched)),
{
    match fetched {
        None => None,
        Some(html) => {
            let text = html.as_str();
            let bytes = text.as_bytes();
            if text.is_empty() || bytes.len() > u32::MAX as usize || too_many_angles(bytes) {
                None
            } else {
                select_first_child_attr(text, IMAGE_MARKER, IMAGE_ATTR)
            }
        },
    }
}

/// The next thing to do while looking for today's strip.
#[derive(Debug)]
pub enum ResolveStep {
    /// Request the page for this many days ago.
    Fetch(i64),
    /// The search is over, with this image, if any.
    Done(Option<String>),
}

pub enum StepView {
    Fetch(int),
    Done(Option<Seq<char>>),
}

impl ResolveStep {
    pub open spec fn view(&self) -> StepView {
        match self {
            ResolveStep::Fetch(n) => StepView::Fetch(*n as int),
            ResolveStep::Done(o) => StepView::Done(opt_view(*o)),
        }
    }
}

/// What follows the answer `found` for the page of `days_ago` days ago: an
/// image ends the search; a miss on today's page moves on to yesterday's; a
/// miss on yesterday's ends it empty.
pub open spec fn next_step(days_ago: int, found: Option<Seq<char>>) -> StepView {
    match found {
        Some(u) => StepView::Done(Some(u)),
        None => if days_ago == 0 {
            StepView::Fetch(1)
        } else {
            StepView::Done(None)
        },
    }
}

/// Today's image where there is one, else yesterday's.
pub open spec fn todays_image(today: Option<Seq<char>>, yesterday: Option<Seq<char>>) -> Option<
    Seq<char>,
> {
    match today {
        Some(u) => Some(u),
        None => yesterday,
    }
}

/// The first step of the search: today's page.
pub fn todays_garfield_start() -> (r: ResolveStep)
    ensures
        r@ == StepView::Fetch(0),
{
    ResolveStep::Fetch(0)
}

/// The step after the answer `found` for the page of `days_ago` days ago.
pub fn todays_garfield_next(days_ago: i64, found: Option<String>) -> (r: ResolveStep)
    requires
        days_ago == 0 || days_ago == 1,
    ensures
        r@ == next_step(days_ago as int, opt_view(found)),
{
    match found {
        Some(u) => ResolveStep::Done(Some(u)),
        None => if days_ago == 0 {
            ResolveStep::Fetch(1)
        } else {
            ResolveStep::Done(None)
        },
    }
}

/// Searching from today's page yields today's image whenever there is one,
/// yesterday's exactly when today's is absent, and nothing when both are.
pub proof fn lemma_today_then_yesterday(today: Option<Seq<char>>, yesterday: Option<Seq<char>>)
    ensures
        today is Some ==> next_step(0, today) == StepView::Done(today),
        today is None ==> next_step(0, today) == StepView::Fetch(1) && next_step(1, yesterday)
            == StepView::Done(yesterday),
        (today is None && yesterday is None) ==> todays_image(today, yesterday) is None,
        todays_image(today, yesterday) == (match next_step(0, today) {
            StepView::Done(r) => r,
            StepView::Fetch(_) => match next_step(1, yesterday) {
                StepView::Done(r) => r,
                StepView::Fetch(_) => None,
            },
        }),
{
}

/// Whatever the date, a failed fetch, an empty or overlong body, or a page
/// without the marked element's child element or its attribute gives no image.
pub proof fn lemma_failures_are_absent(html: Seq<char>)
    ensures
        image_of(None) is None,
        html.len() == 0 ==> image_of(Some(html)) is None,
        too_long(html) ==> image_of(Some(html)) is None,
        first_child_attr(html, IMAGE_MARKER@, IMAGE_ATTR@) is None ==> image_of(
            Some(html),
        ) is None,
{
}

} // verus!
