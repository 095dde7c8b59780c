use vstd::prelude::*;

verus! {

/// A page of results with an optional continuation token for the next page.
#[derive(Debug, PartialEq)]
pub struct FeedPage<T> {
    pub items: Vec<T>,
    pub continuation: Option<String>,
}

/// A video. `duration` is in whole seconds and `published` is a Unix
/// timestamp in seconds.
#[derive(Debug, PartialEq)]
pub struct VideoItem {
    pub id: String,
    pub title: String,
    pub channel: String,
    pub channel_id: String,
    pub view_count: Option<u64>,
    pub duration: Option<u64>,
    pub published: Option<i64>,
    pub thumbnail_url: String,
}

/// Full information on one video.
#[derive(Debug, PartialEq)]
pub struct VideoDetail {
    pub item: VideoItem,
    pub description: String,
    pub like_count: Option<u64>,
    pub keywords: Vec<String>,
}

#[derive(Debug, PartialEq)]
pub struct ChannelItem {
    pub id: String,
    pub name: String,
    pub subscriber_count: Option<u64>,
    pub thumbnail_url: String,
}

#[derive(Debug, PartialEq)]
pub struct PlaylistItem {
    pub id: String,
    pub title: String,
    pub channel: String,
    pub channel_id: String,
    pub video_count: Option<u32>,
    pub thumbnail_url: String,
}

/// Items that can appear in a feed.
#[derive(Debug, PartialEq)]
pub enum FeedItem {
    Video(VideoItem),
    Channel(ChannelItem),
    Playlist(PlaylistItem),
    Short(VideoItem),
}

/// A watched video; `watched_at` is a Unix timestamp in seconds.
#[derive(Debug, PartialEq)]
pub struct HistoryEntry {
    pub video: VideoItem,
    pub watched_at: i64,
}

#[derive(Debug, Clone, Copy, PartialEq, Eq, Hash, Structural)]
pub enum ItemType {
    Video,
    Channel,
    Playlist,
}

/// Key under which a thumbnail is cached.
#[derive(Debug, PartialEq, Eq, Hash)]
pub struct ThumbnailKey {
    pub item_type: ItemType,
    pub item_id: String,
}

/// Search filters (no fields yet).
#[derive(Debug, Clone, Copy, Default)]
pub struct SearchFilters {}

/// Channel page: metadata and its uploaded videos.
#[derive(Debug, PartialEq)]
pub struct ChannelDetail {
    pub item: ChannelItem,
    pub description: String,
    pub video_count: Option<u64>,
    pub videos: Vec<VideoItem>,
}

/// Playlist page.
#[derive(Debug, PartialEq)]
pub struct PlaylistDetail {
    pub item: PlaylistItem,
    pub description: String,
}

/// One available thumbnail size.
#[derive(Debug, PartialEq)]
pub struct Thumbnail {
    pub url: String,
    pub width: u32,
    pub height: u32,
}

impl Clone for VideoItem {
    fn clone(&self) -> (r: Self)
        ensures
            r == *self,
    {
        VideoItem {
            id: self.id.clone(),
            title: self.title.clone(),
            channel: self.channel.clone(),
            channel_id: self.channel_id.clone(),
            view_count: self.view_count,
            duration: self.duration,
            published: self.published,
            thumbnail_url: self.thumbnail_url.clone(),
        }
    }
}

impl Clone for ChannelItem {
    fn clone(&self) -> (r: Self)
        ensures
            r == *self,
    {
        ChannelItem {
            id: self.id.clone(),
            name: self.name.clone(),
            subscriber_count: self.subscriber_count,
            thumbnail_url: self.thumbnail_url.clone(),
        }
    }
}

impl Clone for PlaylistItem {
    fn clone(&self) -> (r: Self)
        ensures
            r == *self,
    {
        PlaylistItem {
            id: self.id.clone(),
            title: self.title.clone(),
            channel: self.channel.clone(),
            channel_id: self.channel_id.clone(),
            video_count: self.video_count,
            thumbnail_url: self.thumbnail_url.clone(),
        }
    }
}

impl Clone for FeedItem {
    fn clone(&self) -> (r: Self)
        ensures
            r == *self,
    {
        match self {
            FeedItem::Video(v) => FeedItem::Video(v.clone()),
            FeedItem::Channel(c) => FeedItem::Channel(c.clone()),
            FeedItem::Playlist(p) => FeedItem::Playlist(p.clone()),
            FeedItem::Short(v) => FeedItem::Short(v.clone()),
        }
    }
}

/// Two details carry the same information.
pub open spec fn same_detail(a: VideoDetail, b: VideoDetail) -> bool {
    a.item == b.item && a.description == b.description && a.like_count == b.like_count
        && a.keywords@ == b.keywords@
}

fn clone_strings(v: &Vec<String>) -> (r: Vec<String>)
    ensures
        r@ == v@,
{
    let mut out: Vec<String> = Vec::new();
    let mut i: usize = 0;
    while i < v.len()
        invariant
            i <= v@.len(),
            out@ == v@.take(i as int),
        decreases v@.len() - i,
    {
        out.push(v[i].clone());
        proof {
            assert(v@.take(i + 1) =~= v@.take(i as int).push(v@[i as int]));
        }
        i += 1;
    }
    proof {
        assert(v@.take(v@.len() as int) =~= v@);
    }
    out
}

impl Clone for VideoDetail {
    fn clone(&self) -> (r: Self)
        ensures
            same_detail(r, *self),
    {
        VideoDetail {
            item: self.item.clone(),
            description: self.description.clone(),
            like_count: self.like_count,
            keywords: clone_strings(&self.keywords),
        }
    }
}

impl Clone for ThumbnailKey {
    fn clone(&self) -> (r: Self)
        ensures
            r == *self,
    {
        ThumbnailKey { item_type: self.item_type, item_id: self.item_id.clone() }
    }
}

impl Clone for HistoryEntry {
    fn clone(&self) -> (r: Self)
        ensures
            r == *self,
    {
        HistoryEntry { video: self.video.clone(), watched_at: self.watched_at }
    }
}

/// Identifier of a feed item, whatever its kind.
pub open spec fn feed_item_id(item: FeedItem) -> String {
    match item {
        FeedItem::Video(v) => v.id,
        FeedItem::Short(v) => v.id,
        FeedItem::Channel(c) => c.id,
        FeedItem::Playlist(p) => p.id,
    }
}

pub open spec fn feed_item_type(item: FeedItem) -> ItemType {
    match item {
        FeedItem::Video(_) => ItemType::Video,
        FeedItem::Short(_) => ItemType::Video,
        FeedItem::Channel(_) => ItemType::Channel,
        FeedItem::Playlist(_) => ItemType::Playlist,
    }
}

pub open spec fn feed_item_thumbnail_url(item: FeedItem) -> String {
    match item {
        FeedItem::Video(v) => v.thumbnail_url,
        FeedItem::Short(v) => v.thumbnail_url,
        FeedItem::Channel(c) => c.thumbnail_url,
        FeedItem::Playlist(p) => p.thumbnail_url,
    }
}

pub open spec fn feed_item_title(item: FeedItem) -> String {
    match item {
        FeedItem::Video(v) => v.title,
        FeedItem::Short(v) => v.title,
        FeedItem::Channel(c) => c.name,
        FeedItem::Playlist(p) => p.title,
    }
}

impl FeedItem {
    /// Key of this item's thumbnail: its kind (shorts count as videos) and id.
    pub fn thumbnail_key(&self) -> (k: ThumbnailKey)
        ensures
            k.item_type == feed_item_type(*self),
            k.item_id == feed_item_id(*self),
    {
        match self {
            FeedItem::Video(v) => ThumbnailKey { item_type: ItemType::Video, item_id: v.id.clone() },
            FeedItem::Short(v) => ThumbnailKey { item_type: ItemType::Video, item_id: v.id.clone() },
            FeedItem::Channel(c) => ThumbnailKey {
                item_type: ItemType::Channel,
                item_id: c.id.clone(),
            },
            FeedItem::Playlist(p) => ThumbnailKey {
                item_type: ItemType::Playlist,
                item_id: p.id.clone(),
            },
        }
    }

    /// URL of this item's thumbnail.
    pub fn thumbnail_url(&self) -> (r: &str)
        ensures
            r@ == feed_item_thumbnail_url(*self)@,
    {
        match self {
            FeedItem::Video(v) => v.thumbnail_url.as_str(),
            FeedItem::Short(v) => v.thumbnail_url.as_str(),
            FeedItem::Channel(c) => c.thumbnail_url.as_str(),
            FeedItem::Playlist(p) => p.thumbnail_url.as_str(),
        }
    }

    /// Title of this item (a channel's name for channels).
    pub fn title(&self) -> (r: &str)
        ensures
            r@ == feed_item_title(*self)@,
    {
        match self {
            FeedItem::Video(v) => v.title.as_str(),
            FeedItem::Short(v) => v.title.as_str(),
            FeedItem::Channel(c) => c.name.as_str(),
            FeedItem::Playlist(p) => p.title.as_str(),
        }
    }
}

pub open spec fn item_type_name(t: ItemType) -> Seq<char> {
    match t {
        ItemType::Video => "video"@,
        ItemType::Channel => "channel"@,
        ItemType::Playlist => "playlist"@,
    }
}

/// Lower-case name of an item kind, as used in cache file names and indexes.
pub fn item_type_str(t: ItemType) -> (r: &'static str)
    ensures
        r@ == item_type_name(t),
{
    match t {
        ItemType::Video => "video",
        ItemType::Channel => "channel",
        ItemType::Playlist => "playlist",
    }
}

/// File name of a cached thumbnail: `<kind>_<id>.jpg`.
pub open spec fn thumbnail_file_name_spec(key: ThumbnailKey) -> Seq<char> {
    item_type_name(key.item_type) + "_"@ + key.item_id@ + ".jpg"@
}

/// File name under which the thumbnail for `key` is cached.
pub fn thumbnail_file_name(key: &ThumbnailKey) -> (r: String)
    ensures
        r@ == thumbnail_file_name_spec(*key),
{
    let mut s = String::from_str(item_type_str(key.item_type));
    s.append("_");
    s.append(key.item_id.as_str());
    s.append(".jpg");
    s
}

/// Area of a thumbnail in pixels.
pub open spec fn thumb_area(t: Thumbnail) -> int {
    t.width * t.height
}

/// Index of the thumbnail with the largest area; among equal areas the last
/// one wins. `-1` for an empty list.
pub open spec fn best_thumbnail_index(ts: Seq<Thumbnail>) -> int
    decreases ts.len(),
{
    if ts.len() == 0 {
        -1
    } else {
        let j = best_thumbnail_index(ts.drop_last());
        if j < 0 || thumb_area(ts.last()) >= thumb_area(ts[j]) {
            ts.len() - 1
        } else {
            j
        }
    }
}

proof fn lemma_best_index_range(ts: Seq<Thumbnail>)
    ensures
        ts.len() == 0 ==> best_thumbnail_index(ts) == -1,
        ts.len() > 0 ==> 0 <= best_thumbnail_index(ts) < ts.len(),
    decreases ts.len(),
{
    if ts.len() > 0 {
        lemma_best_index_range(ts.drop_last());
    }
}

/// URL of the largest thumbnail (the last of equally large ones), or the
/// empty string when there is none.
pub fn best_thumbnail_url(thumbnails: &Vec<Thumbnail>) -> (r: String)
    requires
        forall|i: int| 0 <= i < thumbnails@.len() ==> #[trigger] thumb_area(thumbnails@[i]) <= u32::MAX,
    ensures
        thumbnails@.len() == 0 ==> r@ == Seq::<char>::empty(),
        thumbnails@.len() > 0 ==> r@ == thumbnails@[best_thumbnail_index(thumbnails@)].url@,
{
    let n = thumbnails.len();
    if n == 0 {
        return String::new();
    }
    proof {
        assert(thumbnails@.take(1).drop_last() =~= thumbnails@.take(0));
        assert(thumbnails@.take(0).len() == 0);
        assert(best_thumbnail_index(thumbnails@.take(0)) == -1);
        assert(thumbnails@.take(1).last() == thumbnails@[0]);
        assert(thumb_area(thumbnails@[0]) <= u32::MAX);
        assert(best_thumbnail_index(thumbnails@.take(1)) == 0);
    }
    let mut best: usize = 0;
    let mut best_area: u32 = thumbnails[0].width * thumbnails[0].height;
    let mut i: usize = 1;
    while i < n
        invariant
            1 <= i <= n,
            n == thumbnails@.len(),
            best < i,
            best as int == best_thumbnail_index(thumbnails@.take(i as int)),
            best_area as int == thumb_area(thumbnails@[best as int]),
            forall|j: int| 0 <= j < thumbnails@.len() ==> #[trigger] thumb_area(thumbnails@[j]) <= u32::MAX,
        decreases n - i,
    {
        proof {
            lemma_best_index_range(thumbnails@.take(i as int));
            assert(thumb_area(thumbnails@[i as int]) <= u32::MAX);
            assert(thumbnails@.take(i + 1).drop_last() =~= thumbnails@.take(i as int));
            assert(thumbnails@.take(i + 1).last() == thumbnails@[i as int]);
            assert(thumbnails@.take(i as int)[best as int] == thumbnails@[best as int]);
        }
        let a = thumbnails[i].width * thumbnails[i].height;
        if a >= best_area {
            best = i;
            best_area = a;
        }
        i += 1;
    }
    proof {
        assert(thumbnails@.take(n as int) =~= thumbnails@);
    }
    assert(best < thumbnails.len());
    thumbnails[best].url.clone()
}

} // verus!
