use vstd::prelude::*;
use crate::filters::{
    date_label_spec, item_type_label_spec, length_label_spec, sort_label_spec, SearchDate,
    SearchItemType, SearchLength, SearchSort,
};
use crate::text::str_eq;

verus! {

/// A search the user saved, with its filters.
#[derive(Debug, PartialEq)]
pub struct SavedSearch {
    pub id: i64,
    pub name: String,
    pub query: String,
    pub sort: SearchSort,
    pub date: SearchDate,
    pub item_type: SearchItemType,
    pub length: SearchLength,
    pub created_at: String,
    pub last_run_at: Option<String>,
}

impl Clone for SavedSearch {
    fn clone(&self) -> (r: Self)
        ensures
            r == *self,
    {
        SavedSearch {
            id: self.id,
            name: self.name.clone(),
            query: self.query.clone(),
            sort: self.sort,
            date: self.date,
            item_type: self.item_type,
            length: self.length,
            created_at: self.created_at.clone(),
            last_run_at: match &self.last_run_at {
                Some(t) => Some(t.clone()),
                None => None,
            },
        }
    }
}

pub open spec fn parse_sort_spec(s: Seq<char>) -> SearchSort {
    if s == "Date"@ {
        SearchSort::Date
    } else if s == "Views"@ {
        SearchSort::Views
    } else if s == "Rating"@ {
        SearchSort::Rating
    } else {
        SearchSort::Relevance
    }
}

pub open spec fn parse_date_spec(s: Seq<char>) -> SearchDate {
    if s == "Hour"@ {
        SearchDate::Hour
    } else if s == "Day"@ {
        SearchDate::Day
    } else if s == "Week"@ {
        SearchDate::Week
    } else if s == "Month"@ {
        SearchDate::Month
    } else if s == "Year"@ {
        SearchDate::Year
    } else {
        SearchDate::Any
    }
}

pub open spec fn parse_item_type_spec(s: Seq<char>) -> SearchItemType {
    if s == "Video"@ {
        SearchItemType::Video
    } else if s == "Channel"@ {
        SearchItemType::Channel
    } else if s == "Playlist"@ {
        SearchItemType::Playlist
    } else {
        SearchItemType::All
    }
}

pub open spec fn parse_length_spec(s: Seq<char>) -> SearchLength {
    if s == "Short"@ {
        SearchLength::Short
    } else if s == "Medium"@ {
        SearchLength::Medium
    } else if s == "Long"@ {
        SearchLength::Long
    } else {
        SearchLength::Any
    }
}

/// Sort order stored under `s`; unknown text reads as `Relevance`.
pub fn parse_sort(s: &str) -> (r: SearchSort)
    ensures
        r == parse_sort_spec(s@),
{
    if str_eq(s, "Date") {
        SearchSort::Date
    } else if str_eq(s, "Views") {
        SearchSort::Views
    } else if str_eq(s, "Rating") {
        SearchSort::Rating
    } else {
        SearchSort::Relevance
    }
}

/// Date window stored under `s`; unknown text reads as `Any`.
pub fn parse_date(s: &str) -> (r: SearchDate)
    ensures
        r == parse_date_spec(s@),
{
    if str_eq(s, "Hour") {
        SearchDate::Hour
    } else if str_eq(s, "Day") {
        SearchDate::Day
    } else if str_eq(s, "Week") {
        SearchDate::Week
    } else if str_eq(s, "Month") {
        SearchDate::Month
    } else if str_eq(s, "Year") {
        SearchDate::Year
    } else {
        SearchDate::Any
    }
}

/// Item type stored under `s`; unknown text reads as `All`.
pub fn parse_item_type(s: &str) -> (r: SearchItemType)
    ensures
        r == parse_item_type_spec(s@),
{
    if str_eq(s, "Video") {
        SearchItemType::Video
    } else if str_eq(s, "Channel") {
        SearchItemType::Channel
    } else if str_eq(s, "Playlist") {
        SearchItemType::Playlist
    } else {
        SearchItemType::All
    }
}

/// Length bucket stored under `s`; unknown text reads as `Any`.
pub fn parse_length(s: &str) -> (r: SearchLength)
    ensures
        r == parse_length_spec(s@),
{
    if str_eq(s, "Short") {
        SearchLength::Short
    } else if str_eq(s, "Medium") {
        SearchLength::Medium
    } else if str_eq(s, "Long") {
        SearchLength::Long
    } else {
        SearchLength::Any
    }
}

/// A filter value stored under its label reads back as the same value, so
/// saving a search and loading it again keeps its filters.
pub proof fn lemma_parse_label_roundtrip(s: SearchSort, d: SearchDate, t: SearchItemType, l: SearchLength)
    ensures
        parse_sort_spec(sort_label_spec(s)) == s,
        parse_date_spec(date_label_spec(d)) == d,
        parse_item_type_spec(item_type_label_spec(t)) == t,
        parse_length_spec(length_label_spec(l)) == l,
{
    reveal_strlit("Relevance");
    reveal_strlit("Date");
    reveal_strlit("Views");
    reveal_strlit("Rating");
    reveal_strlit("Any");
    reveal_strlit("Hour");
    reveal_strlit("Day");
    reveal_strlit("Week");
    reveal_strlit("Month");
    reveal_strlit("Year");
    reveal_strlit("All");
    reveal_strlit("Video");
    reveal_strlit("Channel");
    reveal_strlit("Playlist");
    reveal_strlit("Short");
    reveal_strlit("Medium");
    reveal_strlit("Long");
    assert("Relevance"@.len() == 9 && "Date"@.len() == 4 && "Views"@.len() == 5 && "Rating"@.len() == 6);
    assert("Any"@.len() == 3 && "Hour"@.len() == 4 && "Day"@.len() == 3 && "Week"@.len() == 4);
    assert("Month"@.len() == 5 && "Year"@.len() == 4);
    assert("Any"@[0] != "Day"@[0]);
    assert("Hour"@[0] != "Week"@[0] && "Hour"@[0] != "Year"@[0] && "Week"@[0] != "Year"@[0]);
    assert("All"@.len() == 3 && "Video"@.len() == 5 && "Channel"@.len() == 7 && "Playlist"@.len() == 8);
    assert("Short"@.len() == 5 && "Medium"@.len() == 6 && "Long"@.len() == 4);
}

} // verus!
