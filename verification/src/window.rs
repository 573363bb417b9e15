//! Which charts a page of the chart browser shows. The browser lays out
//! nine chart cards per page, pages being numbered from 1.
use vstd::prelude::*;
use vstd::string::*;
use crate::error::ShapoError;

verus! {

/// How many chart cards a page holds.
pub const CARDS_PER_PAGE: usize = 9;

/// A page of the chart browser: it shows the charts numbered
/// `first .. first + shown`, and offers to turn to the next or previous page.
#[derive(Clone, Copy, Debug, PartialEq, Eq)]
pub struct ChartPage {
    pub first: usize,
    pub shown: usize,
    pub if_next_page: bool,
    pub if_previous_page: bool,
}

/// The number of the first chart on page `page`.
pub open spec fn page_start(page: int) -> int {
    9 * (page - 1)
}

/// How many charts there are from the start of page `page` on.
pub open spec fn page_delta(chart_count: int, page: int) -> int {
    chart_count - page_start(page)
}

/// The page numbered `page_number` of a browser over `chart_count` charts.
/// A page that starts beyond the last chart is an error.
pub fn chart_page(chart_count: usize, page_number: i32) -> (r: Result<ChartPage, ShapoError>)
    requires
        chart_count <= i32::MAX,
        1 <= page_number,
        page_start(page_number as int) <= i32::MAX,
    ensures
        page_delta(chart_count as int, page_number as int) < 0 ==> (r matches Err(
            ShapoError::SystemError(m),
        ) && m@ == "invailed page number"@),
        page_delta(chart_count as int, page_number as int) >= 0 ==> (r matches Ok(p) && {
            let delta = page_delta(chart_count as int, page_number as int);
            &&& p.first == page_start(page_number as int)
            &&& p.shown == (if delta < 9 { delta } else { 9 })
            &&& p.if_next_page == (delta > 9)
            &&& p.if_previous_page == (page_number > 1)
        }),
{
    let start = 9 * (page_number - 1);
    let delta = chart_count as i32 - start;
    if delta < 0 {
        return Err(ShapoError::SystemError(String::from_str("invailed page number")));
    }
    let shown: i32 = if delta < 9 {
        delta
    } else {
        9
    };
    Ok(ChartPage {
        first: start as usize,
        shown: shown as usize,
        if_next_page: delta > 9,
        if_previous_page: page_number > 1,
    })
}

/// The pages cover the charts without gap or overlap: a full page is
/// followed by the page that starts right after its last chart, and a page
/// offers a next page exactly when charts remain beyond it.
pub proof fn lemma_pages_follow_each_other(chart_count: int, page: int)
    requires
        page >= 1,
        page_delta(chart_count, page) >= 0,
    ensures
        page_start(page + 1) == page_start(page) + 9,
        (page_delta(chart_count, page) > 9) <==> page_start(page + 1) < chart_count,
        page_delta(chart_count, page) > 9 ==> page_delta(chart_count, page + 1) > 0,
{
}

} // verus!
