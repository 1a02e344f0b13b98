use vstd::prelude::*;

use crate::paths::{join, join_path};
use crate::quote::{quote_cents, quote_cents_of};

verus! {

/// Title of the feed.
pub const FEED_TITLE: &'static str = "Bitcoin Price";

/// Link of the feed.
pub const FEED_LINK: &'static str = "https://coinmarketcap.com/currencies/bitcoin";

/// Directory inside the data directory that holds the feed.
pub const RSS_DIR: &'static str = "rss";

/// File name of the feed.
pub const FEED_FILE: &'static str = "bitcoin.xml";

/// Endpoint that quotes the latest price.
pub const PRICE_ENDPOINT: &'static str = "https://pro-api.coinmarketcap.com/v1/cryptocurrency/quotes/latest";

/// Header that carries the API key.
pub const API_KEY_HEADER: &'static str = "X-CMC_PRO_API_KEY";

/// Where the USD price of BTC sits in the quote, as a JSON pointer.
pub const PRICE_POINTER: &'static str = "/data/BTC/quote/USD/price";

/// Why no price could be had.
#[derive(Debug, Clone, Copy, PartialEq, Eq, Structural)]
pub enum FetchError {
    /// The endpoint answered with a status that is not a success.
    HttpStatusError,
    /// The quote lacks the price field.
    FieldMissingError,
    /// The price field is not a usable number.
    TypeError,
}

/// The character of a decimal digit.
pub open spec fn digit_char(d: nat) -> char {
    if d == 0 { '0' }
    else if d == 1 { '1' }
    else if d == 2 { '2' }
    else if d == 3 { '3' }
    else if d == 4 { '4' }
    else if d == 5 { '5' }
    else if d == 6 { '6' }
    else if d == 7 { '7' }
    else if d == 8 { '8' }
    else { '9' }
}

/// Decimal notation of `n`, without leading zeros ("0" for zero).
pub open spec fn decimal(n: nat) -> Seq<char>
    decreases n,
{
    if n < 10 {
        seq![digit_char(n)]
    } else {
        decimal(n / 10).push(digit_char(n % 10))
    }
}

fn digit_str(d: u64) -> (r: &'static str)
    requires
        d < 10,
    ensures
        r@ == seq![digit_char(d as nat)],
{
    proof {
        reveal_strlit("0");
        reveal_strlit("1");
        reveal_strlit("2");
        reveal_strlit("3");
        reveal_strlit("4");
        reveal_strlit("5");
        reveal_strlit("6");
        reveal_strlit("7");
        reveal_strlit("8");
        reveal_strlit("9");
    }
    match d {
        0 => "0",
        1 => "1",
        2 => "2",
        3 => "3",
        4 => "4",
        5 => "5",
        6 => "6",
        7 => "7",
        8 => "8",
        _ => "9",
    }
}

/// Appends the decimal notation of `n` to `out`.
fn push_decimal(out: &mut String, n: u64)
    ensures
        final(out)@ == old(out)@ + decimal(n as nat),
    decreases n,
{
    if n < 10 {
        out.append(digit_str(n));
    } else {
        push_decimal(out, n / 10);
        out.append(digit_str(n % 10));
        assert(out@ =~= old(out)@ + decimal(n as nat));
    }
}

/// Entry title for a price in cents: `$`, the whole dollars, a point and
/// exactly two digits of cents.
pub open spec fn price_text(cents: nat) -> Seq<char> {
    seq!['$'] + decimal(cents / 100) + seq!['.', digit_char((cents % 100) / 10), digit_char(cents % 10)]
}

/// The text of a channel with the given title and link and a single item
/// with the given title.
pub uninterp spec fn rss_channel(title: Seq<char>, link: Seq<char>, item_title: Seq<char>) -> Seq<char>;

/// Relies on rss's `ItemBuilder`, `ChannelBuilder` and `Channel`'s `Display`:
/// the serialized channel, which depends on its title, link and item alone.
#[verifier::external_body]
fn render_channel(title: &str, link: &str, item_title: &str) -> (r: String)
    ensures
        r@ == rss_channel(title@, link@, item_title@),
{
    let item = rss::ItemBuilder::default().title(Some(item_title.to_string())).build();
    rss::ChannelBuilder::default().title(title).link(link).item(item).build().to_string()
}

/// The feed document for a price in cents.
pub open spec fn feed_document(cents: nat) -> Seq<char> {
    rss_channel(FEED_TITLE@, FEED_LINK@, price_text(cents))
}

/// Where the feed lives inside a data directory.
pub open spec fn feed_path(data_dir: Seq<char>) -> Seq<char> {
    join(join(data_dir, RSS_DIR@), FEED_FILE@)
}

/// Formats a price in cents as an entry title, e.g. 4210 as "$42.10".
pub fn price_title(cents: u64) -> (r: String)
    ensures
        r@ == price_text(cents as nat),
{
    let mut r = "$".to_owned();
    push_decimal(&mut r, cents / 100);
    r.append(".");
    r.append(digit_str((cents % 100) / 10));
    r.append(digit_str(cents % 10));
    proof {
        reveal_strlit("$");
        reveal_strlit(".");
    }
    assert(r@ =~= price_text(cents as nat));
    r
}

/// Builds the feed document: the fixed title and link, and one entry whose
/// title is the price.
pub fn generate_rss(price_cents: u64) -> (r: String)
    ensures
        r@ == feed_document(price_cents as nat),
{
    let title = price_title(price_cents);
    render_channel(FEED_TITLE, FEED_LINK, title.as_str())
}

/// Reads the quoted price field, in the decimal notation of the quote, as
/// whole cents; a field that is no plain decimal, or too large, is a type error.
pub fn quoted_price(text: &str) -> (r: Result<u64, FetchError>)
    ensures
        match quote_cents_of(text@) {
            Some(c) => r == Ok::<u64, FetchError>(c),
            None => r == Err::<u64, FetchError>(FetchError::TypeError),
        },
{
    match quote_cents(text) {
        Some(c) => Ok(c),
        None => Err(FetchError::TypeError),
    }
}

/// What the quote holds at the price pointer.
#[derive(Debug)]
pub enum PriceField {
    /// Nothing stands at the pointer.
    Missing,
    /// Something stands there that is not a number.
    NotNumber,
    /// A number, in the quote's decimal notation.
    Number(String),
}

/// The price in cents that the quote's price field gives, or why there is none.
pub fn price_from_field(field: PriceField) -> (r: Result<u64, FetchError>)
    ensures
        match field {
            PriceField::Missing => r == Err::<u64, FetchError>(FetchError::FieldMissingError),
            PriceField::NotNumber => r == Err::<u64, FetchError>(FetchError::TypeError),
            PriceField::Number(t) => match quote_cents_of(t@) {
                Some(c) => r == Ok::<u64, FetchError>(c),
                None => r == Err::<u64, FetchError>(FetchError::TypeError),
            },
        },
{
    match field {
        PriceField::Missing => Err(FetchError::FieldMissingError),
        PriceField::NotNumber => Err(FetchError::TypeError),
        PriceField::Number(t) => quoted_price(t.as_str()),
    }
}

/// The directory inside a data directory that holds the feed.
pub fn rss_dir(data_dir: &str) -> (r: String)
    ensures
        r@ == join(data_dir@, RSS_DIR@),
{
    join_path(data_dir, RSS_DIR)
}

/// A file to write, whole, over whatever stands at its path.
#[derive(Debug)]
pub struct FeedWrite {
    pub path: String,
    pub contents: String,
}

/// The write that publishing a price into a data directory makes.
pub open spec fn planned_write(data_dir: Seq<char>, cents: nat) -> (Seq<char>, Seq<char>) {
    (feed_path(data_dir), feed_document(cents))
}

/// What stands on disk after a write, with the disk as a map from path to contents.
pub open spec fn after_write(disk: Map<Seq<char>, Seq<char>>, w: (Seq<char>, Seq<char>)) -> Map<Seq<char>, Seq<char>> {
    disk.insert(w.0, w.1)
}

/// Decides what a run publishes once the price fetch has ended: on a fetched
/// price, the whole feed document for the feed file; on a failed fetch, that
/// error and nothing to write.
pub fn publication(fetched: Result<u64, FetchError>, data_dir: &str) -> (r: Result<FeedWrite, FetchError>)
    ensures
        match fetched {
            Ok(cents) => r matches Ok(w) && (w.path@, w.contents@) == planned_write(data_dir@, cents as nat),
            Err(e) => r == Err::<FeedWrite, FetchError>(e),
        },
{
    match fetched {
        Ok(cents) => {
            let dir = rss_dir(data_dir);
            let path = join_path(dir.as_str(), FEED_FILE);
            Ok(FeedWrite { path, contents: generate_rss(cents) })
        },
        Err(e) => Err(e),
    }
}

/// A later run replaces the feed: after two runs into one data directory the
/// feed file holds the document of the second price alone, with its single
/// entry, whatever the first price and whatever stood on disk before.
pub proof fn law_latest_run_wins(disk: Map<Seq<char>, Seq<char>>, data_dir: Seq<char>, first: nat, second: nat)
    ensures
        ({
            let after = after_write(after_write(disk, planned_write(data_dir, first)), planned_write(data_dir, second));
            &&& after[feed_path(data_dir)] == feed_document(second)
            &&& after.dom() == disk.dom().insert(feed_path(data_dir))
        }),
{
    let after = after_write(after_write(disk, planned_write(data_dir, first)), planned_write(data_dir, second));
    assert(after.dom() =~= disk.dom().insert(feed_path(data_dir)));
}

} // verus!
