//! The client's page: its state, how each message changes it, and what it
//! shows.

use vstd::prelude::*;
use crate::frontend::{Channel, Item};
use crate::frontend::feeder::{FeederService, Request, is_channels_request, is_items_request};

verus! {

/// What happens on the page.
#[derive(Debug, PartialEq)]
pub enum Msg {
    /// Ask the server for the channels.
    FetchChannels,
    /// The channels arrived (or could not be read).
    ChannelsReady(Result<Vec<Channel>, ()>),
    /// Ask the server for the items of this channel.
    FetchItems(i32),
    /// The items arrived (or could not be read).
    ItemsReady(Result<Vec<Item>, ()>),
    /// The item at this position was clicked.
    Details(usize),
}

/// The page's state.
#[derive(Debug, PartialEq)]
pub struct Model {
    pub channels: Vec<Channel>,
    pub items: Vec<Item>,
    /// The position of the item whose details are open.
    pub current_item: Option<usize>,
    /// The request in flight, the last one made.
    pub task: Option<Request>,
}

/// What an update asks of the page: whether to render it again, and a
/// request to send.
#[derive(Debug, PartialEq)]
pub struct Update {
    pub render: bool,
    pub fetch: Option<Request>,
}

/// A click on item `i` opens its details, or closes them when they are the
/// ones open.
pub open spec fn spec_toggle(current: Option<usize>, i: usize) -> Option<usize> {
    if current == Some(i) {
        None
    } else {
        Some(i)
    }
}

/// What a click on the page sends.
#[derive(Clone, Copy, Debug, PartialEq, Eq)]
pub enum Click {
    /// `Msg::FetchItems` of this channel.
    FetchItems(i32),
    /// `Msg::Details` of this position.
    Details(usize),
}

/// The message that a click sends.
pub open spec fn spec_message(click: Click) -> Msg {
    match click {
        Click::FetchItems(id) => Msg::FetchItems(id),
        Click::Details(i) => Msg::Details(i),
    }
}

impl Click {
    /// The message that the click sends.
    pub fn message(self) -> (m: Msg)
        ensures
            m == spec_message(self),
            self matches Click::Details(i) ==> m == Msg::Details(i),
            self matches Click::FetchItems(id) ==> m == Msg::FetchItems(id),
    {
        match self {
            Click::FetchItems(id) => Msg::FetchItems(id),
            Click::Details(i) => Msg::Details(i),
        }
    }
}

/// A link of the channel list: the channel's title; a click asks for its
/// items.
#[derive(Debug, PartialEq)]
pub struct ChannelLink {
    pub title: String,
    pub on_click: Click,
}

/// The details pane of an item.
#[derive(Debug, PartialEq)]
pub struct ItemDetails {
    pub title: String,
    pub link: String,
    pub description: String,
    pub author: String,
    pub guid: String,
    pub pub_date: String,
}

/// A row of the item list: the item's title; a click toggles its details.
#[derive(Debug, PartialEq)]
pub struct ItemRow {
    pub title: String,
    pub on_click: Click,
}

/// What the page shows: a header, the channel list, the details pane (empty
/// when no item is open), the item list and a footer.
#[derive(Debug, PartialEq)]
pub struct Page {
    pub header: String,
    pub footer: String,
    pub nav: Vec<ChannelLink>,
    pub details: Option<ItemDetails>,
    pub rows: Vec<ItemRow>,
}

/// The text of an optional field, or `default` when it is absent.
pub open spec fn text_or(o: Option<String>, default: Seq<char>) -> Seq<char> {
    match o {
        Some(s) => s@,
        None => default,
    }
}

/// The link shows channel `c`.
pub open spec fn shows_channel(l: ChannelLink, c: Channel) -> bool {
    l.title@ == c.title@ && l.on_click == Click::FetchItems(c.id)
}

/// The details pane shows `item`: a missing title reads "link", any other
/// missing field reads empty.
pub open spec fn shows_details(d: ItemDetails, item: Item) -> bool {
    &&& d.title@ == text_or(item.title, "link"@)
    &&& d.link@ == text_or(item.link, ""@)
    &&& d.description@ == text_or(item.description, ""@)
    &&& d.author@ == text_or(item.author, ""@)
    &&& d.guid@ == text_or(item.guid, ""@)
    &&& d.pub_date@ == text_or(item.pub_date, ""@)
}

/// The row shows `item` at position `idx`.
pub open spec fn shows_row(r: ItemRow, item: Item, idx: int) -> bool {
    r.title@ == text_or(item.title, ""@) && r.on_click == Click::Details(idx as usize)
}

/// The page shows these channels and items, with the details of the item at
/// `current` open.
pub open spec fn shows(page: Page, channels: Seq<Channel>, items: Seq<Item>, current: Option<usize>) -> bool {
    &&& page.nav@.len() == channels.len()
    &&& forall|i: int| 0 <= i < channels.len() ==> shows_channel(#[trigger] page.nav@[i], channels[i])
    &&& match current {
        Some(idx) => page.details matches Some(d) && shows_details(d, items[idx as int]),
        None => page.details is None,
    }
    &&& page.rows@.len() == items.len()
    &&& forall|i: int| 0 <= i < items.len() ==> shows_row(#[trigger] page.rows@[i], items[i], i)
}

fn text_or_default(o: &Option<String>, default: &str) -> (r: String)
    ensures
        r@ == text_or(*o, default@),
{
    match o {
        Some(s) => s.clone(),
        None => default.to_owned(),
    }
}

fn item_details(item: &Item) -> (d: ItemDetails)
    ensures
        shows_details(d, *item),
{
    ItemDetails {
        title: text_or_default(&item.title, "link"),
        link: text_or_default(&item.link, ""),
        description: text_or_default(&item.description, ""),
        author: text_or_default(&item.author, ""),
        guid: text_or_default(&item.guid, ""),
        pub_date: text_or_default(&item.pub_date, ""),
    }
}

impl Model {
    /// The page before anything arrived.
    pub fn create() -> (m: Model)
        ensures
            m.channels@ == Seq::<Channel>::empty(),
            m.items@ == Seq::<Item>::empty(),
            m.current_item is None,
            m.task is None,
    {
        Model { channels: Vec::new(), items: Vec::new(), current_item: None, task: None }
    }

    /// Applies a message. The page is always rendered again. A fetch message
    /// makes its request, which becomes the one in flight; a list that
    /// arrives replaces the shown one, one that could not be read changes
    /// nothing; a click on an item toggles its details.
    pub fn update(&mut self, msg: Msg, feeder: &mut FeederService) -> (u: Update)
        ensures
            u.render,
            *final(feeder) == *old(feeder),
            match msg {
                Msg::FetchChannels => {
                    &&& final(self).channels == old(self).channels
                    &&& final(self).items == old(self).items
                    &&& final(self).current_item == old(self).current_item
                    &&& final(self).task matches Some(r) && is_channels_request(r)
                    &&& u.fetch == final(self).task
                },
                Msg::FetchItems(id) => {
                    &&& final(self).channels == old(self).channels
                    &&& final(self).items == old(self).items
                    &&& final(self).current_item == old(self).current_item
                    &&& final(self).task matches Some(r) && is_items_request(r, id)
                    &&& u.fetch == final(self).task
                },
                Msg::ChannelsReady(Ok(channels)) => {
                    &&& final(self).channels == channels
                    &&& final(self).items == old(self).items
                    &&& final(self).current_item == old(self).current_item
                    &&& final(self).task == old(self).task
                    &&& u.fetch is None
                },
                Msg::ItemsReady(Ok(items)) => {
                    &&& final(self).channels == old(self).channels
                    &&& final(self).items == items
                    &&& final(self).current_item == old(self).current_item
                    &&& final(self).task == old(self).task
                    &&& u.fetch is None
                },
                Msg::Details(i) => {
                    &&& final(self).channels == old(self).channels
                    &&& final(self).items == old(self).items
                    &&& final(self).current_item == spec_toggle(old(self).current_item, i)
                    &&& old(self).current_item == Some(i) ==> final(self).current_item is None
                    &&& old(self).current_item != Some(i) ==> final(self).current_item == Some(i)
                    &&& final(self).task == old(self).task
                    &&& u.fetch is None
                },
                _ => {
                    &&& *final(self) == *old(self)
                    &&& u.fetch is None
                },
            },
    {
        match msg {
            Msg::FetchChannels => {
                let request = feeder.channels();
                let fetch = request.copy();
                self.task = Some(request);
                Update { render: true, fetch: Some(fetch) }
            },
            Msg::ChannelsReady(Ok(channels)) => {
                self.channels = channels;
                Update { render: true, fetch: None }
            },
            Msg::FetchItems(id) => {
                let request = feeder.items(id);
                let fetch = request.copy();
                self.task = Some(request);
                Update { render: true, fetch: Some(fetch) }
            },
            Msg::ItemsReady(Ok(items)) => {
                self.items = items;
                Update { render: true, fetch: None }
            },
            Msg::Details(i) => {
                self.current_item = if self.current_item == Some(i) {
                    None
                } else {
                    Some(i)
                };
                Update { render: true, fetch: None }
            },
            _ => Update { render: true, fetch: None },
        }
    }

    /// What the page shows. The open item must be one of the shown items.
    pub fn view(&self) -> (page: Page)
        requires
            self.current_item matches Some(idx) ==> idx < self.items.len(),
        ensures
            page.header@ == "Feeder"@,
            page.footer@ == "footer"@,
            shows(page, self.channels@, self.items@, self.current_item),
    {
        let mut nav: Vec<ChannelLink> = Vec::new();
        let mut i: usize = 0;
        while i < self.channels.len()
            invariant
                i <= self.channels.len(),
                nav@.len() == i,
                forall|j: int| 0 <= j < i ==> shows_channel(#[trigger] nav@[j], self.channels@[j]),
            decreases self.channels.len() - i,
        {
            let chan = &self.channels[i];
            nav.push(ChannelLink { title: chan.title.clone(), on_click: Click::FetchItems(chan.id) });
            i += 1;
        }
        let details = match self.current_item {
            Some(idx) => Some(item_details(&self.items[idx])),
            None => None,
        };
        let mut rows: Vec<ItemRow> = Vec::new();
        let mut k: usize = 0;
        while k < self.items.len()
            invariant
                k <= self.items.len(),
                rows@.len() == k,
                forall|j: int| 0 <= j < k ==> shows_row(#[trigger] rows@[j], self.items@[j], j),
            decreases self.items.len() - k,
        {
            let title = text_or_default(&self.items[k].title, "");
            rows.push(ItemRow { title, on_click: Click::Details(k) });
            k += 1;
        }
        Page { header: "Feeder".to_owned(), footer: "footer".to_owned(), nav, details, rows }
    }
}

/// A click on an item opens its details exactly when they were not open,
/// and a second click on it closes them again: after two clicks the item is
/// open exactly when it was before.
pub proof fn lemma_toggle(current: Option<usize>, i: usize)
    ensures
        (spec_toggle(current, i) == Some(i)) == (current != Some(i)),
        (spec_toggle(spec_toggle(current, i), i) == Some(i)) == (current == Some(i)),
        spec_toggle(current, i) is None ==> current == Some(i),
        spec_toggle(Some(i), i) is None,
        current != Some(i) ==> spec_toggle(current, i) == Some(i),
{
}

/// The message a click sends names what was clicked: a click on row `i`
/// opens or closes the details of item `i`, a click on a channel asks for
/// that channel's items.
pub proof fn lemma_click_message(i: usize, id: i32)
    ensures
        spec_message(Click::Details(i)) == Msg::Details(i),
        spec_message(Click::FetchItems(id)) == Msg::FetchItems(id),
{
}

/// Clicking a shown item whose details are not open opens them: the page
/// then shows that item's details.
pub proof fn lemma_click_shows_details(
    page: Page,
    channels: Seq<Channel>,
    items: Seq<Item>,
    current: Option<usize>,
    i: usize,
)
    requires
        i < items.len(),
        current != Some(i),
        shows(page, channels, items, spec_toggle(current, i)),
    ensures
        page.details matches Some(d) && shows_details(d, items[i as int]),
{
}

} // verus!
