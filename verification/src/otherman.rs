//! The release catalogue: what its pages hold, how they are asked for, and how
//! a release is named on screen.
//!
//! A list page is `{"count": N, "0": {...}, "1": {...}, ...}`, so its members
//! are collected in the order of their numbers.
use vstd::prelude::*;
use vstd::string::*;

use crate::json::{member_names, names, number_member, number_members, texts};
use crate::text::{
    bounded_value, decimal, number_value, read_number, trim, trim_end, trimmed, trimmed_end,
    write_decimal,
};

verus! {

/// Where the catalogue answers.
pub const BASE_URL: &'static str = "https://www.otherman-records.com/index.php/api/releases";

/// What a release's page is linked as, up to its identifier.
pub const RELEASE_LINK_BASE: &'static str = "https://www.otherman-records.com/releases/";

/// How many releases a list page holds.
pub const PAGE_SIZE: usize = 12;

/// How long a server may take to be reached, in seconds. Without a ceiling a
/// stalled connection would leave the window saying "Loading" indefinitely.
pub const CONNECT_TIMEOUT_SECONDS: u64 = 10;

/// How long a page or a release may take to arrive, in seconds.
pub const METADATA_TIMEOUT_SECONDS: u64 = 20;

/// How long a whole track may take to arrive, in seconds. It is played while it
/// arrives, but fetched as fast as the network allows.
pub const TRACK_TIMEOUT_SECONDS: u64 = 300;

/// How much of a track to buffer before handing it to the player.
///
/// Roughly six seconds of a 320 kbps MP3, which is the cushion the playhead has
/// if the network briefly falls behind.
pub const PREBUFFER_BYTES: usize = 262144;

/// A release as the list names it.
#[derive(Debug, Clone)]
pub struct ListItem {
    pub id: String,
    pub artist1: String,
    pub artist2: String,
    pub title: String,
}

/// One track of a release.
#[derive(Debug, Clone)]
pub struct Track {
    pub title: String,
    pub url: String,
}

/// A release with its tracks.
#[derive(Debug, Clone)]
pub struct Release {
    pub id: String,
    pub artist1: String,
    pub artist2: String,
    pub tracklist: Vec<Track>,
}

impl ListItem {
    /// The label of a release: its identifier, title and artists, without white
    /// space at the end.
    pub open spec fn label_text(&self) -> Seq<char> {
        trimmed_end(
            "["@ + self.id@ + "] "@ + self.title@ + " / "@ + self.artist1@ + " "@ + self.artist2@,
        )
    }

    /// Label shown in the release dropdown.
    pub fn label(&self) -> (r: String)
        ensures
            r@ == self.label_text(),
    {
        let mut text = String::new();
        text.append("[");
        text.append(self.id.as_str());
        text.append("] ");
        text.append(self.title.as_str());
        text.append(" / ");
        text.append(self.artist1.as_str());
        text.append(" ");
        text.append(self.artist2.as_str());
        proof {
            assert(text@ =~= "["@ + self.id@ + "] "@ + self.title@ + " / "@ + self.artist1@ + " "@
                + self.artist2@);
        }
        trim_end(text.as_str())
    }
}

impl Release {
    /// The artists of a release, without white space at the end.
    pub open spec fn artists_text(&self) -> Seq<char> {
        trimmed_end(self.artist1@ + " "@ + self.artist2@)
    }

    /// The artists of a release, as the title line names them.
    pub fn artists(&self) -> (r: String)
        ensures
            r@ == self.artists_text(),
    {
        let mut text = String::new();
        text.append(self.artist1.as_str());
        text.append(" ");
        text.append(self.artist2.as_str());
        proof {
            assert(text@ =~= self.artist1@ + " "@ + self.artist2@);
        }
        trim_end(text.as_str())
    }
}

/// The address of one list page.
pub fn page_url(page: usize) -> (r: String)
    ensures
        r@ == BASE_URL@ + "/list/"@ + decimal(page as nat) + "/sort/release-asc"@,
{
    let mut url = BASE_URL.to_owned();
    url.append("/list/");
    url.append(write_decimal(page as u64).as_str());
    url.append("/sort/release-asc");
    url
}

/// The address that answers with one release.
pub fn release_url(id: &str) -> (r: String)
    ensures
        r@ == BASE_URL@ + "/id/"@ + id@,
{
    let mut url = BASE_URL.to_owned();
    url.append("/id/");
    url.append(id);
    url
}

/// The page of a release, for a browser.
pub fn release_link(id: &str) -> (r: String)
    ensures
        r@ == RELEASE_LINK_BASE@ + id@,
{
    let mut url = RELEASE_LINK_BASE.to_owned();
    url.append(id);
    url
}

/// How many pages hold `count` releases.
pub open spec fn pages_for(count: usize) -> int {
    if count as int % PAGE_SIZE as int == 0 {
        count as int / PAGE_SIZE as int
    } else {
        count as int / PAGE_SIZE as int + 1
    }
}

/// How many pages a catalogue has, from the count its first page gives. One
/// that gives none has no pages beyond the first.
pub fn total_pages(count: Option<u64>) -> (r: usize)
    ensures
        r == pages_for(
            match count {
                Some(n) => n as usize,
                None => 0,
            },
        ),
{
    let count: usize = match count {
        Some(n) => n as usize,
        None => 0,
    };
    if count % PAGE_SIZE == 0 {
        count / PAGE_SIZE
    } else {
        count / PAGE_SIZE + 1
    }
}

/// The length a `content-length` header declares, if it declares one.
pub open spec fn declared_length(header: Option<Seq<char>>) -> Option<nat> {
    match header {
        Some(value) => bounded_value(trimmed(value), u64::MAX as nat),
        None => None,
    }
}

/// Reads a `content-length` header.
pub fn content_length(header: Option<&str>) -> (r: Option<u64>)
    ensures
        match r {
            Some(n) => declared_length(
                match header {
                    Some(value) => Some(value@),
                    None => None,
                },
            ) == Some(n as nat),
            None => declared_length(
                match header {
                    Some(value) => Some(value@),
                    None => None,
                },
            ) is None,
        },
{
    match header {
        Some(value) => read_number(trim(value).as_str(), u64::MAX),
        None => None,
    }
}

/// The members of a page that are numbered releases, in the order the page is
/// walked: those whose name is a number and that decoded.
pub open spec fn numbered(names: Seq<Seq<char>>, decoded: Seq<Option<ListItem>>) -> Seq<
    (nat, ListItem),
>
    decreases names.len(),
{
    if names.len() == 0 || decoded.len() == 0 {
        seq![]
    } else {
        let rest = numbered(names.drop_first(), decoded.drop_first());
        match (bounded_value(names.first(), usize::MAX as nat), decoded.first()) {
            (Some(index), Some(item)) => seq![(index, item)] + rest,
            _ => rest,
        }
    }
}

/// Whether an entry carries one number.
pub open spec fn carrying(number: nat) -> spec_fn((nat, ListItem)) -> bool {
    |entry: (nat, ListItem)| entry.0 == number
}

/// The entries that carry one number.
pub open spec fn with_number(list: Seq<(nat, ListItem)>, number: nat) -> Seq<(nat, ListItem)> {
    list.filter(carrying(number))
}

/// Whether a list runs upwards by number.
pub open spec fn upwards(list: Seq<(nat, ListItem)>) -> bool {
    forall|i: int, j: int| 0 <= i <= j < list.len() ==> (#[trigger] list[i]).0 <= (#[trigger] list[j]).0
}

/// Whether `list` is `given` put in order: it runs upwards, and entries that
/// share a number keep the order they were given in.
pub open spec fn ordered(given: Seq<(nat, ListItem)>, list: Seq<(nat, ListItem)>) -> bool {
    &&& upwards(list)
    &&& forall|number: nat| #[trigger] with_number(list, number) == with_number(given, number)
}

/// The releases of a list of entries.
pub open spec fn releases_of(list: Seq<(nat, ListItem)>) -> Seq<ListItem> {
    list.map_values(|entry: (nat, ListItem)| entry.1)
}

/// The entries of a working list.
spec fn entries(list: Seq<(usize, ListItem)>) -> Seq<(nat, ListItem)> {
    list.map_values(|entry: (usize, ListItem)| (entry.0 as nat, entry.1))
}

/// No entry carries a number that all of them pass over.
proof fn nothing_carries(list: Seq<(nat, ListItem)>, number: nat)
    requires
        forall|i: int| 0 <= i < list.len() ==> (#[trigger] list[i]).0 != number,
    ensures
        with_number(list, number) == Seq::<(nat, ListItem)>::empty(),
    decreases list.len(),
{
    reveal(Seq::filter);
    if list.len() > 0 {
        assert forall|i: int| 0 <= i < list.drop_last().len() implies (
        #[trigger] list.drop_last()[i]).0 != number by {
            assert(list.drop_last()[i] == list[i]);
        }
        nothing_carries(list.drop_last(), number);
        assert(list.last() == list[list.len() - 1]);
    }
}

/// Putting one more entry behind every entry whose number is not above its own
/// keeps a list in order.
proof fn placing_keeps_order(
    given: Seq<(nat, ListItem)>,
    list: Seq<(nat, ListItem)>,
    at: int,
    entry: (nat, ListItem),
)
    requires
        ordered(given, list),
        0 <= at <= list.len(),
        forall|i: int| 0 <= i < at ==> (#[trigger] list[i]).0 <= entry.0,
        forall|i: int| at <= i < list.len() ==> (#[trigger] list[i]).0 > entry.0,
    ensures
        ordered(given.push(entry), list.insert(at, entry)),
{
    let placed = list.insert(at, entry);
    let low = list.take(at);
    let high = list.skip(at);
    assert(list =~= low + high);
    assert(placed =~= low + seq![entry] + high);
    assert forall|number: nat| #[trigger]
        with_number(placed, number) == with_number(given.push(entry), number) by {
        let carries = carrying(number);
        Seq::filter_distributes_over_add(low, high, carries);
        Seq::filter_distributes_over_add(low + seq![entry], high, carries);
        Seq::filter_distributes_over_add(low, seq![entry], carries);
        Seq::filter_distributes_over_add(given, seq![entry], carries);
        assert(given.push(entry) =~= given + seq![entry]);
        assert(with_number(list, number) == with_number(given, number));
        if number == entry.0 {
            assert forall|i: int| 0 <= i < high.len() implies (#[trigger] high[i]).0 != number by {
                assert(high[i] == list[at + i]);
            }
            nothing_carries(high, number);
            assert(low.filter(carries) + high.filter(carries) =~= low.filter(carries));
            assert(with_number(placed, number) =~= with_number(given.push(entry), number));
        } else {
            nothing_carries(seq![entry], number);
            assert(low.filter(carries) + Seq::<(nat, ListItem)>::empty() =~= low.filter(carries));
            assert(given.filter(carries) + Seq::<(nat, ListItem)>::empty() =~= given.filter(
                carries,
            ));
        }
    }
    assert forall|i: int, j: int| 0 <= i <= j < placed.len() implies (#[trigger] placed[i]).0 <= (
    #[trigger] placed[j]).0 by {
        let from_i = if i < at {
            list[i]
        } else if i == at {
            entry
        } else {
            list[i - 1]
        };
        let from_j = if j < at {
            list[j]
        } else if j == at {
            entry
        } else {
            list[j - 1]
        };
        assert(placed[i] == from_i);
        assert(placed[j] == from_j);
    }
}

/// The entries of a page walked one member further.
proof fn numbered_grows(names: Seq<Seq<char>>, decoded: Seq<Option<ListItem>>, k: int)
    requires
        0 <= k < names.len(),
        k < decoded.len(),
    ensures
        numbered(names.take(k + 1), decoded.take(k + 1)) == match (
            bounded_value(names[k], usize::MAX as nat),
            decoded[k],
        ) {
            (Some(index), Some(item)) => numbered(names.take(k), decoded.take(k)).push(
                (index, item),
            ),
            _ => numbered(names.take(k), decoded.take(k)),
        },
    decreases k,
{
    if k == 0 {
        assert(names.take(0) =~= Seq::<Seq<char>>::empty());
        assert(names.take(1).drop_first() =~= Seq::<Seq<char>>::empty());
        assert(numbered(names.take(1).drop_first(), decoded.take(1).drop_first()) =~= seq![]);
        assert(names.take(1).first() == names[0]);
        assert(decoded.take(1).first() == decoded[0]);
        assert(numbered(names.take(1), decoded.take(1)) =~= match (
            bounded_value(names[0], usize::MAX as nat),
            decoded[0],
        ) {
            (Some(index), Some(item)) => seq![(index, item)],
            _ => seq![],
        });
    } else {
        numbered_grows(names.drop_first(), decoded.drop_first(), k - 1);
        assert(names.take(k + 1).drop_first() =~= names.drop_first().take(k));
        assert(decoded.take(k + 1).drop_first() =~= decoded.drop_first().take(k));
        assert(names.take(k).drop_first() =~= names.drop_first().take(k - 1));
        assert(decoded.take(k).drop_first() =~= decoded.drop_first().take(k - 1));
        assert(names.take(k + 1).first() == names.take(k).first());
        assert(decoded.take(k + 1).first() == decoded.take(k).first());
        assert(numbered(names.take(k + 1), decoded.take(k + 1)) =~= match (
            bounded_value(names[k], usize::MAX as nat),
            decoded[k],
        ) {
            (Some(index), Some(item)) => numbered(names.take(k), decoded.take(k)).push(
                (index, item),
            ),
            _ => numbered(names.take(k), decoded.take(k)),
        });
    }
}

/// Where either list ends, so do the entries of a page.
proof fn numbered_ends(names: Seq<Seq<char>>, decoded: Seq<Option<ListItem>>, k: int)
    requires
        0 <= k <= names.len(),
        k <= decoded.len(),
        k == names.len() || k == decoded.len(),
    ensures
        numbered(names.take(k), decoded.take(k)) == numbered(names, decoded),
    decreases k,
{
    if k > 0 {
        numbered_ends(names.drop_first(), decoded.drop_first(), k - 1);
        assert(names.take(k).drop_first() =~= names.drop_first().take(k - 1));
        assert(decoded.take(k).drop_first() =~= decoded.drop_first().take(k - 1));
    }
}

/// Puts one entry into a list that runs upwards, behind the entries that share
/// its number.
fn place(list: &mut Vec<(usize, ListItem)>, index: usize, item: ListItem, Ghost(given): Ghost<
    Seq<(nat, ListItem)>,
>)
    requires
        ordered(given, entries(old(list)@)),
    ensures
        ordered(given.push((index as nat, item)), entries(final(list)@)),
{
    let mut at: usize = list.len();
    let ghost before = entries(list@);
    while at > 0 && list[at - 1].0 > index
        invariant
            at <= list@.len(),
            before == entries(list@),
            list@ == old(list)@,
            forall|i: int| at <= i < before.len() ==> (#[trigger] before[i]).0 > index,
        decreases at,
    {
        proof {
            assert(before[at - 1].0 == list@[at - 1].0);
        }
        at = at - 1;
    }
    proof {
        assert forall|i: int| 0 <= i < at implies (#[trigger] before[i]).0 <= index by {
            assert(before[at - 1].0 == list@[at - 1].0);
            assert(before[i].0 <= before[at - 1].0);
        }
        placing_keeps_order(given, before, at as int, (index as nat, item));
    }
    list.insert(at, (index, item));
    proof {
        assert(entries(list@) =~= before.insert(at as int, (index as nat, item)));
    }
}

/// Puts a page's releases in the order of their numbers, given the names of its
/// members and what each of them decoded to.
///
/// `decoded` runs alongside `names`; a member without a counterpart is left
/// out, as are those that are not named by a number or did not decode.
pub fn order_items(names: &Vec<String>, decoded: Vec<Option<ListItem>>) -> (r: Vec<ListItem>)
    ensures
        exists|list: Seq<(nat, ListItem)>|
            #![trigger releases_of(list)]
            ordered(numbered(texts(names@), decoded@), list) && r@ == releases_of(list),
{
    let mut list: Vec<(usize, ListItem)> = Vec::new();
    let mut k: usize = 0;
    let mut decoded = decoded;
    let ghost all = decoded@;
    let ghost named = texts(names@);
    proof {
        assert(entries(list@) =~= numbered(named.take(0), all.take(0)));
        assert(all.skip(0) =~= all);
    }
    while k < names.len() && decoded.len() > 0
        invariant
            k <= names@.len(),
            k <= all.len(),
            named == texts(names@),
            decoded@ == all.skip(k as int),
            ordered(numbered(named.take(k as int), all.take(k as int)), entries(list@)),
        decreases names@.len() - k,
    {
        let ghost given = numbered(named.take(k as int), all.take(k as int));
        let found = decoded.remove(0);
        proof {
            assert(decoded@ =~= all.skip(k + 1));
            assert(found == all[k as int]);
            assert(named[k as int] == names@[k as int]@);
            numbered_grows(named, all, k as int);
        }
        if let Some(item) = found {
            if let Some(index) = read_number(names[k].as_str(), usize::MAX as u64) {
                place(&mut list, index as usize, item, Ghost(given));
            }
        }
        k = k + 1;
    }
    let ghost list_entries = entries(list@);
    proof {
        numbered_ends(named, all, k as int);
    }
    let mut out: Vec<ListItem> = Vec::new();
    for entry in it: list
        invariant
            it.seq() == list@,
            list_entries == entries(list@),
            out@ == releases_of(list_entries.take(it.index())),
    {
        proof {
            let n = it.index();
            assert(list_entries.take(n + 1) =~= list_entries.take(n).push(list_entries[n]));
        }
        out.push(entry.1);
    }
    proof {
        assert(list_entries.take(list_entries.len() as int) =~= list_entries);
    }
    out
}

/// The entries that carry a number, one entry further on.
proof fn first_entry_counts(list: Seq<(nat, ListItem)>, number: nat)
    requires
        list.len() > 0,
    ensures
        with_number(list, number) == if list[0].0 == number {
            seq![list[0]] + with_number(list.drop_first(), number)
        } else {
            with_number(list.drop_first(), number)
        },
{
    reveal(Seq::filter);
    let carries = carrying(number);
    let head = seq![list[0]];
    assert(list =~= head + list.drop_first());
    Seq::filter_distributes_over_add(head, list.drop_first(), carries);
    assert(head.drop_last() =~= Seq::<(nat, ListItem)>::empty());
    assert(head.drop_last().filter(carries) =~= Seq::<(nat, ListItem)>::empty());
    assert(list.filter(carries) == head.filter(carries) + list.drop_first().filter(carries));
    if list[0].0 == number {
        assert(head.filter(carries) =~= head);
    } else {
        nothing_carries(head, number);
        assert(Seq::<(nat, ListItem)>::empty() + with_number(list.drop_first(), number)
            =~= with_number(list.drop_first(), number));
    }
}

/// An entry that stands first in a list that runs upwards has the smallest
/// number any list with the same entries holds.
proof fn smallest_stands_first(a: Seq<(nat, ListItem)>, b: Seq<(nat, ListItem)>)
    requires
        upwards(b),
        a.len() > 0,
        forall|number: nat| #[trigger] with_number(a, number) == with_number(b, number),
    ensures
        b.len() > 0,
        b[0].0 <= a[0].0,
{
    let number = a[0].0;
    first_entry_counts(a, number);
    assert(with_number(a, number) == with_number(b, number));
    assert(with_number(a, number).len() > 0);
    if forall|i: int| 0 <= i < b.len() ==> (#[trigger] b[i]).0 != number {
        nothing_carries(b, number);
    } else {
        let i = choose|i: int| 0 <= i < b.len() && (#[trigger] b[i]).0 == number;
        assert(b[0].0 <= b[i].0);
    }
}

/// There is only one way to put entries in order.
pub proof fn order_is_unique(
    given: Seq<(nat, ListItem)>,
    a: Seq<(nat, ListItem)>,
    b: Seq<(nat, ListItem)>,
)
    requires
        ordered(given, a),
        ordered(given, b),
    ensures
        a == b,
    decreases a.len(),
{
    assert forall|number: nat| #[trigger] with_number(a, number) == with_number(b, number) by {
        assert(with_number(a, number) == with_number(given, number));
        assert(with_number(b, number) == with_number(given, number));
    }
    if a.len() == 0 {
        if b.len() > 0 {
            assert forall|number: nat| #[trigger]
                with_number(b, number) == with_number(a, number) by {
                assert(with_number(a, number) == with_number(b, number));
            }
            smallest_stands_first(b, a);
        }
        assert(a =~= b);
    } else {
        smallest_stands_first(a, b);
        assert forall|number: nat| #[trigger] with_number(b, number) == with_number(a, number) by {
            assert(with_number(a, number) == with_number(b, number));
        }
        smallest_stands_first(b, a);
        let number = a[0].0;
        first_entry_counts(a, number);
        first_entry_counts(b, number);
        assert(with_number(a, number) == with_number(b, number));
        assert(with_number(a, number)[0] == a[0]);
        assert(with_number(b, number)[0] == b[0]);
        let rest_a = a.drop_first();
        let rest_b = b.drop_first();
        assert forall|n: nat| #[trigger] with_number(rest_b, n) == with_number(rest_a, n) by {
            first_entry_counts(a, n);
            first_entry_counts(b, n);
            assert(with_number(a, n) == with_number(b, n));
            if n == number {
                assert(with_number(rest_a, n) =~= with_number(a, n).drop_first());
                assert(with_number(rest_b, n) =~= with_number(b, n).drop_first());
            }
        }
        order_is_unique(rest_a, rest_a, rest_b);
        assert(a =~= seq![a[0]] + rest_a);
        assert(b =~= seq![b[0]] + rest_b);
    }
}

/// Collects the numbered members of a list page, leaving out `count` and any
/// member that did not decode as a release. The names are numbers, so they are
/// ordered as numbers and not as text.
///
/// `decoded` holds what each member decoded to, in the order the page is
/// walked.
pub fn items_of(page: &serde_json::Value, decoded: Vec<Option<ListItem>>) -> (r: Vec<ListItem>)
    ensures
        exists|list: Seq<(nat, ListItem)>|
            #![trigger releases_of(list)]
            ordered(numbered(member_names(*page), decoded@), list) && r@ == releases_of(list),
{
    let names = names(page);
    order_items(&names, decoded)
}

/// The catalogue while its pages arrive.
pub struct Catalogue {
    /// The releases of the pages so far, page after page.
    pub releases: Vec<ListItem>,
    /// How many pages have arrived.
    pub arrived: usize,
    /// How many pages the first one announced.
    pub pages: usize,
}

/// What a page holds: the count it announces, and its releases in order.
#[verifier::ext_equal]
pub ghost struct Page {
    pub count: Option<u64>,
    pub releases: Seq<ListItem>,
}

/// A [`Catalogue`], as a value.
#[verifier::ext_equal]
pub ghost struct Collection {
    pub releases: Seq<ListItem>,
    pub arrived: nat,
    pub pages: nat,
}

impl View for Catalogue {
    type V = Collection;

    open spec fn view(&self) -> Collection {
        Collection {
            releases: self.releases@,
            arrived: self.arrived as nat,
            pages: self.pages as nat,
        }
    }
}

/// How many pages a count announces. No count announces none.
pub open spec fn pages_announced(count: Option<u64>) -> nat {
    pages_for(
        match count {
            Some(n) => n as usize,
            None => 0,
        },
    ) as nat
}

/// The count a page announces, if it does.
pub open spec fn count_of(page: serde_json::Value) -> Option<u64> {
    if number_members(page).contains_key("count"@) {
        Some(number_members(page)["count"@])
    } else {
        None
    }
}

impl Collection {
    /// A catalogue of which nothing has arrived.
    pub open spec fn empty() -> Collection {
        Collection { releases: Seq::empty(), arrived: 0, pages: 0 }
    }

    /// The page to ask for next. The first one is always asked for; it says how
    /// many there are.
    pub open spec fn next_page(self) -> Option<nat> {
        if self.arrived == 0 || self.arrived < self.pages {
            Some(self.arrived)
        } else {
            None
        }
    }

    /// The catalogue once one more page has arrived.
    pub open spec fn with(self, page: Page) -> Collection {
        Collection {
            releases: self.releases + page.releases,
            arrived: self.arrived + 1,
            pages: if self.arrived == 0 {
                pages_announced(page.count)
            } else {
                self.pages
            },
        }
    }
}

/// What has been collected once a run of pages has arrived, in order.
pub open spec fn collected(pages: Seq<Page>) -> Collection
    decreases pages.len(),
{
    if pages.len() == 0 {
        Collection::empty()
    } else {
        collected(pages.drop_last()).with(pages.last())
    }
}

/// The releases of a run of pages, page after page.
pub open spec fn releases_in(pages: Seq<Page>) -> Seq<ListItem>
    decreases pages.len(),
{
    if pages.len() == 0 {
        Seq::empty()
    } else {
        releases_in(pages.drop_last()) + pages.last().releases
    }
}

impl Catalogue {
    /// A catalogue of which nothing has arrived.
    pub fn new() -> (r: Catalogue)
        ensures
            r@ == Collection::empty(),
    {
        Catalogue { releases: Vec::new(), arrived: 0, pages: 0 }
    }

    /// The page to ask for next, and nothing once they have all arrived.
    pub fn wanted(&self) -> (r: Option<usize>)
        ensures
            match r {
                Some(page) => self@.next_page() == Some(page as nat),
                None => self@.next_page() is None,
            },
    {
        if self.arrived == 0 || self.arrived < self.pages {
            Some(self.arrived)
        } else {
            None
        }
    }

    /// Takes in what a page held: the count it announced and its releases.
    pub fn take_in(&mut self, count: Option<u64>, items: Vec<ListItem>)
        requires
            old(self)@.next_page() is Some,
        ensures
            final(self)@ == old(self)@.with((Page { count, releases: items@ })),
    {
        if self.arrived == 0 {
            self.pages = total_pages(count);
        }
        let mut items = items;
        self.releases.append(&mut items);
        self.arrived = self.arrived + 1;
    }

    /// Takes in the page that was wanted. `decoded` holds what each of its
    /// members decoded to, in the order the page is walked.
    pub fn page_arrived(&mut self, page: &serde_json::Value, decoded: Vec<Option<ListItem>>)
        requires
            old(self)@.next_page() is Some,
        ensures
            exists|list: Seq<(nat, ListItem)>|
                #![trigger releases_of(list)]
                ordered(numbered(member_names(*page), decoded@), list) && final(self)@
                    == old(self)@.with(
                    (Page { count: count_of(*page), releases: releases_of(list) }),
                ),
    {
        let count = number_member(page, "count");
        let items = items_of(page, decoded);
        self.take_in(count, items);
    }
}

/// What a run of pages comes to.
proof fn pages_add_up(pages: Seq<Page>)
    ensures
        collected(pages).arrived == pages.len(),
        collected(pages).releases == releases_in(pages),
        pages.len() > 0 ==> collected(pages).pages == pages_announced(pages[0].count),
    decreases pages.len(),
{
    if pages.len() > 0 {
        pages_add_up(pages.drop_last());
    }
}

/// The whole catalogue is collected: when every page that arrived was the one
/// asked for and no more are wanted, the pages were asked for from the first
/// on, each of them once and no others. There are as many as the first one
/// announces, and at least that one. The releases are theirs, page after page.
pub proof fn the_catalogue_is_every_page_in_turn(pages: Seq<Page>)
    requires
        forall|n: int|
            0 <= n < pages.len() ==> (#[trigger] collected(pages.take(n))).next_page() is Some,
        collected(pages).next_page() is None,
    ensures
        pages.len() > 0,
        pages.len() == if pages_announced(pages[0].count) > 1 {
            pages_announced(pages[0].count)
        } else {
            1
        },
        forall|n: int|
            0 <= n < pages.len() ==> (#[trigger] collected(pages.take(n))).next_page() == Some(
                n as nat,
            ),
        collected(pages).releases == releases_in(pages),
{
    pages_add_up(pages);
    let n = pages.len() - 1;
    if n >= 0 {
        assert(collected(pages.take(n)).next_page() is Some);
        pages_add_up(pages.take(n));
    }
    assert forall|n: int| 0 <= n < pages.len() implies (#[trigger] collected(
        pages.take(n),
    )).next_page() == Some(n as nat) by {
        pages_add_up(pages.take(n));
    }
}

/// As long as pages are wanted, the catalogue is a proper beginning of the whole:
/// the page asked for is the one after those that have arrived, and it is the
/// first or one of those announced.
pub proof fn pages_are_asked_for_in_turn(pages: Seq<Page>)
    requires
        collected(pages).next_page() is Some,
    ensures
        collected(pages).next_page() == Some(pages.len()),
        pages.len() > 0 ==> pages.len() < pages_announced(pages[0].count),
        collected(pages).releases == releases_in(pages),
{
    pages_add_up(pages);
}

/// A release is listed as its identifier in brackets, its title, and its artists
/// after a slash, and named in the title line by its artists. Only white space at
/// the end is left out, as where there is no second artist.
pub proof fn a_release_is_named_in_full(item: ListItem, release: Release)
    ensures
        item.label_text() == trimmed_end(
            seq!['['] + item.id@ + seq![']', ' '] + item.title@ + seq![' ', '/', ' ']
                + item.artist1@ + seq![' '] + item.artist2@,
        ),
        release.artists_text() == trimmed_end(release.artist1@ + seq![' '] + release.artist2@),
{
    reveal_strlit("[");
    reveal_strlit("] ");
    reveal_strlit(" / ");
    reveal_strlit(" ");
    assert("["@ =~= seq!['[']);
    assert("] "@ =~= seq![']', ' ']);
    assert(" / "@ =~= seq![' ', '/', ' ']);
    assert(" "@ =~= seq![' ']);
}

/// There are as many pages as it takes to hold every release at twelve to a
/// page, and no more.
pub proof fn pages_hold_every_release(count: usize)
    ensures
        pages_for(count) * 12 >= count,
        (pages_for(count) - 1) * 12 < count,
        pages_for(count) >= 0,
{
}

/// A count announces the pages it takes, and a page without one announces none
/// beyond itself. The count is the page's member of that name.
pub proof fn a_count_announces_its_pages(count: u64, page: serde_json::Value)
    ensures
        pages_announced(None) == 0,
        pages_announced(Some(count)) * 12 >= count as usize,
        (pages_announced(Some(count)) - 1) * 12 < count as usize,
        number_members(page).contains_key("count"@) ==> count_of(page) == Some(
            number_members(page)["count"@],
        ),
        !number_members(page).contains_key("count"@) ==> count_of(page) is None,
{
}

/// A declared length is the number the header writes, whatever white space is
/// round it, where that fits in sixty-four bits; without a header there is none.
pub proof fn a_length_is_what_the_header_says(value: Seq<char>)
    ensures
        declared_length(None) is None,
        declared_length(Some(value)) matches Some(n) ==> number_value(trimmed(value)) == Some(n)
            && n <= 0xffff_ffff_ffff_ffff,
        declared_length(Some(value)) is None ==> (number_value(trimmed(value)) matches Some(n)
            ==> n > 0xffff_ffff_ffff_ffff),
{
}

/// A page is walked member by member: one whose name is a number and that
/// decoded is an entry under that number, behind those before it, and any other
/// is left out.
pub proof fn a_page_is_walked_in_order(
    names: Seq<Seq<char>>,
    decoded: Seq<Option<ListItem>>,
    name: Seq<char>,
    found: Option<ListItem>,
)
    requires
        names.len() == decoded.len(),
    ensures
        numbered(Seq::empty(), Seq::empty()) == Seq::<(nat, ListItem)>::empty(),
        number_value(name) is Some && number_value(name)->0 <= usize::MAX && found is Some
            ==> numbered(names.push(name), decoded.push(found)) == numbered(names, decoded).push(
            (number_value(name)->0, found->0),
        ),
        number_value(name) is None || number_value(name)->0 > usize::MAX || found is None
            ==> numbered(names.push(name), decoded.push(found)) == numbered(names, decoded),
{
    let k = names.len() as int;
    numbered_grows(names.push(name), decoded.push(found), k);
    assert(names.push(name).take(k) =~= names);
    assert(decoded.push(found).take(k) =~= decoded);
    assert(names.push(name).take(k + 1) =~= names.push(name));
    assert(decoded.push(found).take(k + 1) =~= decoded.push(found));
}

/// Putting entries in order loses none, adds none and never puts a larger number
/// before a smaller one; those that share a number are the same ones in the same
/// order.
pub proof fn ordering_keeps_every_entry(
    given: Seq<(nat, ListItem)>,
    list: Seq<(nat, ListItem)>,
    entry: (nat, ListItem),
    i: int,
    j: int,
)
    requires
        ordered(given, list),
    ensures
        0 <= i <= j < list.len() ==> list[i].0 <= list[j].0,
        list.contains(entry) <==> given.contains(entry),
        list.filter(carrying(entry.0)) == given.filter(carrying(entry.0)),
        forall|number: nat, e: (nat, ListItem)| #[trigger] carrying(number)(e) <==> e.0 == number,
{
    assert(with_number(list, entry.0) == with_number(given, entry.0));
    if list.contains(entry) {
        let at = choose|at: int| 0 <= at < list.len() && list[at] == entry;
        list.lemma_filter_contains(carrying(entry.0), at);
        given.lemma_filter_contains_rev(carrying(entry.0), entry);
    }
    if given.contains(entry) {
        let at = choose|at: int| 0 <= at < given.len() && given[at] == entry;
        given.lemma_filter_contains(carrying(entry.0), at);
        list.lemma_filter_contains_rev(carrying(entry.0), entry);
    }
}

/// The releases of a list of entries are theirs, one by one.
pub proof fn entries_give_their_releases(list: Seq<(nat, ListItem)>, i: int)
    requires
        0 <= i < list.len(),
    ensures
        releases_of(list).len() == list.len(),
        releases_of(list)[i] == list[i].1,
{
}

/// A page's releases go behind those of the pages before it, and only the first
/// page says how many there are. The first page is always asked for, and then
/// each of those announced.
pub proof fn a_page_adds_its_releases(collection: Collection, page: Page)
    ensures
        ({
            let later = collection.with(page);
            &&& later.releases.len() == collection.releases.len() + page.releases.len()
            &&& later.releases.take(collection.releases.len() as int) == collection.releases
            &&& later.releases.skip(collection.releases.len() as int) == page.releases
            &&& later.arrived == collection.arrived + 1
            &&& collection.arrived > 0 ==> later.pages == collection.pages
            &&& collection.arrived == 0 && page.count is None ==> later.pages == 0
            &&& collection.arrived == 0 && page.count is Some ==> later.pages * 12
                >= page.count->0 as usize && (later.pages - 1) * 12 < page.count->0 as usize
        }),
        collection.arrived == 0 ==> collection.next_page() == Some(0nat),
        collection.arrived > 0 ==> (collection.next_page() is Some <==> collection.arrived
            < collection.pages),
        collection.next_page() matches Some(number) ==> number == collection.arrived,
        Collection::empty().arrived == 0,
        Collection::empty().releases.len() == 0,
{
    let later = collection.with(page);
    assert(later.releases.take(collection.releases.len() as int) =~= collection.releases);
    assert(later.releases.skip(collection.releases.len() as int) =~= page.releases);
}

/// The releases of a run of pages are those of the pages in turn: the last
/// page's stand at the end, behind those of the pages before it.
pub proof fn pages_give_their_releases_in_turn(pages: Seq<Page>, page: Page)
    ensures
        releases_in(Seq::empty()) == Seq::<ListItem>::empty(),
        releases_in(pages.push(page)) == releases_in(pages) + page.releases,
        collected(pages.push(page)).releases == collected(pages).releases + page.releases,
        collected(pages.push(page)).arrived == collected(pages).arrived + 1,
{
    assert(pages.push(page).drop_last() =~= pages);
}

/// A catalogue is seen as it is.
pub proof fn a_catalogue_is_seen_as_it_is(catalogue: Catalogue)
    ensures
        catalogue@.releases == catalogue.releases@,
        catalogue@.arrived == catalogue.arrived,
        catalogue@.pages == catalogue.pages,
{
}

} // verus!
