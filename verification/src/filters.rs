use vstd::prelude::*;

verus! {

/// Result ordering for a search.
#[derive(Debug, Clone, Copy, PartialEq, Eq, Structural)]
pub enum SearchSort {
    Relevance,
    Date,
    Views,
    Rating,
}

/// Upload-date window for a search.
#[derive(Debug, Clone, Copy, PartialEq, Eq, Structural)]
pub enum SearchDate {
    Any,
    Hour,
    Day,
    Week,
    Month,
    Year,
}

/// Kind of item a search returns.
#[derive(Debug, Clone, Copy, PartialEq, Eq, Structural)]
pub enum SearchItemType {
    All,
    Video,
    Channel,
    Playlist,
}

/// Video-length bucket for a search.
#[derive(Debug, Clone, Copy, PartialEq, Eq, Structural)]
pub enum SearchLength {
    Any,
    Short,
    Medium,
    Long,
}

/// Position of a sort value in its cycle.
pub open spec fn sort_index(s: SearchSort) -> int {
    match s {
        SearchSort::Relevance => 0,
        SearchSort::Date => 1,
        SearchSort::Views => 2,
        SearchSort::Rating => 3,
    }
}

pub open spec fn sort_at(i: int) -> SearchSort {
    if i == 0 { SearchSort::Relevance }
    else if i == 1 { SearchSort::Date }
    else if i == 2 { SearchSort::Views }
    else { SearchSort::Rating }
}

pub open spec fn date_index(d: SearchDate) -> int {
    match d {
        SearchDate::Any => 0,
        SearchDate::Hour => 1,
        SearchDate::Day => 2,
        SearchDate::Week => 3,
        SearchDate::Month => 4,
        SearchDate::Year => 5,
    }
}

pub open spec fn date_at(i: int) -> SearchDate {
    if i == 0 { SearchDate::Any }
    else if i == 1 { SearchDate::Hour }
    else if i == 2 { SearchDate::Day }
    else if i == 3 { SearchDate::Week }
    else if i == 4 { SearchDate::Month }
    else { SearchDate::Year }
}

pub open spec fn item_type_index(t: SearchItemType) -> int {
    match t {
        SearchItemType::All => 0,
        SearchItemType::Video => 1,
        SearchItemType::Channel => 2,
        SearchItemType::Playlist => 3,
    }
}

pub open spec fn item_type_at(i: int) -> SearchItemType {
    if i == 0 { SearchItemType::All }
    else if i == 1 { SearchItemType::Video }
    else if i == 2 { SearchItemType::Channel }
    else { SearchItemType::Playlist }
}

pub open spec fn length_index(l: SearchLength) -> int {
    match l {
        SearchLength::Any => 0,
        SearchLength::Short => 1,
        SearchLength::Medium => 2,
        SearchLength::Long => 3,
    }
}

pub open spec fn length_at(i: int) -> SearchLength {
    if i == 0 { SearchLength::Any }
    else if i == 1 { SearchLength::Short }
    else if i == 2 { SearchLength::Medium }
    else { SearchLength::Long }
}

/// Successor in the cycle of values.
pub open spec fn sort_next(v: SearchSort) -> SearchSort {
    sort_at((sort_index(v) + 1) % 4)
}

/// Predecessor in the cycle of values.
pub open spec fn sort_prev(v: SearchSort) -> SearchSort {
    sort_at((sort_index(v) + 3) % 4)
}

pub open spec fn sort_label_spec(s: SearchSort) -> Seq<char> {
    match s {
        SearchSort::Relevance => "Relevance"@,
        SearchSort::Date => "Date"@,
        SearchSort::Views => "Views"@,
        SearchSort::Rating => "Rating"@,
    }
}

/// Successor in the cycle of values.
pub open spec fn date_next(v: SearchDate) -> SearchDate {
    date_at((date_index(v) + 1) % 6)
}

/// Predecessor in the cycle of values.
pub open spec fn date_prev(v: SearchDate) -> SearchDate {
    date_at((date_index(v) + 5) % 6)
}

pub open spec fn date_label_spec(d: SearchDate) -> Seq<char> {
    match d {
        SearchDate::Any => "Any"@,
        SearchDate::Hour => "Hour"@,
        SearchDate::Day => "Day"@,
        SearchDate::Week => "Week"@,
        SearchDate::Month => "Month"@,
        SearchDate::Year => "Year"@,
    }
}

/// Successor in the cycle of values.
pub open spec fn item_type_next(v: SearchItemType) -> SearchItemType {
    item_type_at((item_type_index(v) + 1) % 4)
}

/// Predecessor in the cycle of values.
pub open spec fn item_type_prev(v: SearchItemType) -> SearchItemType {
    item_type_at((item_type_index(v) + 3) % 4)
}

pub open spec fn item_type_label_spec(t: SearchItemType) -> Seq<char> {
    match t {
        SearchItemType::All => "All"@,
        SearchItemType::Video => "Video"@,
        SearchItemType::Channel => "Channel"@,
        SearchItemType::Playlist => "Playlist"@,
    }
}

/// Successor in the cycle of values.
pub open spec fn length_next(v: SearchLength) -> SearchLength {
    length_at((length_index(v) + 1) % 4)
}

/// Predecessor in the cycle of values.
pub open spec fn length_prev(v: SearchLength) -> SearchLength {
    length_at((length_index(v) + 3) % 4)
}

pub open spec fn length_label_spec(l: SearchLength) -> Seq<char> {
    match l {
        SearchLength::Any => "Any"@,
        SearchLength::Short => "Short"@,
        SearchLength::Medium => "Medium"@,
        SearchLength::Long => "Long"@,
    }
}

impl SearchSort {
    /// Display name of the sort order.
    pub fn label(self) -> (r: &'static str)
        ensures
            r@ == sort_label_spec(self),
    {
        match self {
            SearchSort::Relevance => "Relevance",
            SearchSort::Date => "Date",
            SearchSort::Views => "Views",
            SearchSort::Rating => "Rating",
        }
    }

    /// The following value in the cycle Relevance, Date, Views, Rating.
    pub fn next(self) -> (r: Self)
        ensures
            r == sort_next(self),
    {
        match self {
            SearchSort::Relevance => SearchSort::Date,
            SearchSort::Date => SearchSort::Views,
            SearchSort::Views => SearchSort::Rating,
            SearchSort::Rating => SearchSort::Relevance,
        }
    }

    /// The preceding value in the cycle.
    pub fn prev(self) -> (r: Self)
        ensures
            r == sort_prev(self),
    {
        match self {
            SearchSort::Relevance => SearchSort::Rating,
            SearchSort::Date => SearchSort::Relevance,
            SearchSort::Views => SearchSort::Date,
            SearchSort::Rating => SearchSort::Views,
        }
    }
}

impl SearchDate {
    /// Display name of the date window.
    pub fn label(self) -> (r: &'static str)
        ensures
            r@ == date_label_spec(self),
    {
        match self {
            SearchDate::Any => "Any",
            SearchDate::Hour => "Hour",
            SearchDate::Day => "Day",
            SearchDate::Week => "Week",
            SearchDate::Month => "Month",
            SearchDate::Year => "Year",
        }
    }

    /// The following value in the cycle Any, Hour, Day, Week, Month, Year.
    pub fn next(self) -> (r: Self)
        ensures
            r == date_next(self),
    {
        match self {
            SearchDate::Any => SearchDate::Hour,
            SearchDate::Hour => SearchDate::Day,
            SearchDate::Day => SearchDate::Week,
            SearchDate::Week => SearchDate::Month,
            SearchDate::Month => SearchDate::Year,
            SearchDate::Year => SearchDate::Any,
        }
    }

    /// The preceding value in the cycle.
    pub fn prev(self) -> (r: Self)
        ensures
            r == date_prev(self),
    {
        match self {
            SearchDate::Any => SearchDate::Year,
            SearchDate::Hour => SearchDate::Any,
            SearchDate::Day => SearchDate::Hour,
            SearchDate::Week => SearchDate::Day,
            SearchDate::Month => SearchDate::Week,
            SearchDate::Year => SearchDate::Month,
        }
    }
}

impl SearchItemType {
    /// Display name of the item type.
    pub fn label(self) -> (r: &'static str)
        ensures
            r@ == item_type_label_spec(self),
    {
        match self {
            SearchItemType::All => "All",
            SearchItemType::Video => "Video",
            SearchItemType::Channel => "Channel",
            SearchItemType::Playlist => "Playlist",
        }
    }

    /// The following value in the cycle All, Video, Channel, Playlist.
    pub fn next(self) -> (r: Self)
        ensures
            r == item_type_next(self),
    {
        match self {
            SearchItemType::All => SearchItemType::Video,
            SearchItemType::Video => SearchItemType::Channel,
            SearchItemType::Channel => SearchItemType::Playlist,
            SearchItemType::Playlist => SearchItemType::All,
        }
    }

    /// The preceding value in the cycle.
    pub fn prev(self) -> (r: Self)
        ensures
            r == item_type_prev(self),
    {
        match self {
            SearchItemType::All => SearchItemType::Playlist,
            SearchItemType::Video => SearchItemType::All,
            SearchItemType::Channel => SearchItemType::Video,
            SearchItemType::Playlist => SearchItemType::Channel,
        }
    }
}

impl SearchLength {
    /// Display name of the length bucket.
    pub fn label(self) -> (r: &'static str)
        ensures
            r@ == length_label_spec(self),
    {
        match self {
            SearchLength::Any => "Any",
            SearchLength::Short => "Short",
            SearchLength::Medium => "Medium",
            SearchLength::Long => "Long",
        }
    }

    /// The following value in the cycle Any, Short, Medium, Long.
    pub fn next(self) -> (r: Self)
        ensures
            r == length_next(self),
    {
        match self {
            SearchLength::Any => SearchLength::Short,
            SearchLength::Short => SearchLength::Medium,
            SearchLength::Medium => SearchLength::Long,
            SearchLength::Long => SearchLength::Any,
        }
    }

    /// The preceding value in the cycle.
    pub fn prev(self) -> (r: Self)
        ensures
            r == length_prev(self),
    {
        match self {
            SearchLength::Any => SearchLength::Long,
            SearchLength::Short => SearchLength::Any,
            SearchLength::Medium => SearchLength::Short,
            SearchLength::Long => SearchLength::Medium,
        }
    }
}

/// Cycling forward and then backward (or the reverse) through any filter
/// field returns the value one started from.
pub proof fn lemma_filter_cycles_invert(s: SearchSort, d: SearchDate, t: SearchItemType, l: SearchLength)
    ensures
        sort_prev(sort_next(s)) == s,
        sort_next(sort_prev(s)) == s,
        date_prev(date_next(d)) == d,
        date_next(date_prev(d)) == d,
        item_type_prev(item_type_next(t)) == t,
        item_type_next(item_type_prev(t)) == t,
        length_prev(length_next(l)) == l,
        length_next(length_prev(l)) == l,
{
}

/// Each filter field returns to its starting value after a full cycle of
/// forward steps (four for sort, type and length, six for date).
pub proof fn lemma_filter_cycle_period(s: SearchSort, d: SearchDate, t: SearchItemType, l: SearchLength)
    ensures
        sort_next(sort_next(sort_next(sort_next(s)))) == s,
        date_next(date_next(date_next(date_next(date_next(date_next(d)))))) == d,
        item_type_next(item_type_next(item_type_next(item_type_next(t)))) == t,
        length_next(length_next(length_next(length_next(l)))) == l,
{
}

} // verus!
