//! The application's pages and their titles and deep-link hosts.

use vstd::prelude::*;

use crate::text::{chars_eq_str, to_chars};

verus! {

broadcast use vstd::string::group_string_axioms;

#[derive(Clone, Copy, Debug, PartialEq, Eq, Structural)]
pub enum Page {
    Home,
    Form,
    Settings,
    Notifications,
    Diagnostics,
    QueryPlayground,
    QueryDevToolsV2,
    ErrorPlayground,
    About,
}

/// The display title of a page.
pub open spec fn page_title(p: Page) -> Seq<char> {
    match p {
        Page::Home => "Home"@,
        Page::Form => "Form"@,
        Page::Settings => "Settings"@,
        Page::Notifications => "Notifications"@,
        Page::Diagnostics => "Diagnostics"@,
        Page::QueryPlayground => "Query Playground"@,
        Page::QueryDevToolsV2 => "Query DevTools V2"@,
        Page::ErrorPlayground => "Error Playground"@,
        Page::About => "About"@,
    }
}

/// The deep-link host segment of a page.
pub open spec fn page_host(p: Page) -> Seq<char> {
    match p {
        Page::Home => "home"@,
        Page::Form => "form"@,
        Page::Settings => "settings"@,
        Page::Notifications => "notifications"@,
        Page::Diagnostics => "diagnostics"@,
        Page::ErrorPlayground => "error-playground"@,
        Page::QueryPlayground => "query-playground"@,
        Page::QueryDevToolsV2 => "query-devtools-v2"@,
        Page::About => "about"@,
    }
}

/// Every page, in sidebar order.
pub open spec fn all_pages() -> Seq<Page> {
    seq![
        Page::Home,
        Page::Form,
        Page::Settings,
        Page::Notifications,
        Page::Diagnostics,
        Page::QueryPlayground,
        Page::QueryDevToolsV2,
        Page::ErrorPlayground,
        Page::About,
    ]
}

/// Whether `h` is the host of some page.
pub open spec fn is_page_host(h: Seq<char>) -> bool {
    exists|p: Page| page_host(p) == h
}

/// The page whose host is `h`, if any (hosts are distinct, see
/// [`lemma_host_injective`]).
pub open spec fn page_for_host(h: Seq<char>) -> Option<Page> {
    if is_page_host(h) {
        Some(choose|p: Page| page_host(p) == h)
    } else {
        None
    }
}

/// The literal contents of every page host.
pub proof fn reveal_page_hosts()
    ensures
        page_host(Page::Home) == seq!['h', 'o', 'm', 'e'],
        page_host(Page::Form) == seq!['f', 'o', 'r', 'm'],
        page_host(Page::Settings) == seq!['s', 'e', 't', 't', 'i', 'n', 'g', 's'],
        page_host(Page::Notifications) == seq![
            'n',
            'o',
            't',
            'i',
            'f',
            'i',
            'c',
            'a',
            't',
            'i',
            'o',
            'n',
            's',
        ],
        page_host(Page::Diagnostics) == seq![
            'd',
            'i',
            'a',
            'g',
            'n',
            'o',
            's',
            't',
            'i',
            'c',
            's',
        ],
        page_host(Page::ErrorPlayground) == seq![
            'e',
            'r',
            'r',
            'o',
            'r',
            '-',
            'p',
            'l',
            'a',
            'y',
            'g',
            'r',
            'o',
            'u',
            'n',
            'd',
        ],
        page_host(Page::QueryPlayground) == seq![
            'q',
            'u',
            'e',
            'r',
            'y',
            '-',
            'p',
            'l',
            'a',
            'y',
            'g',
            'r',
            'o',
            'u',
            'n',
            'd',
        ],
        page_host(Page::QueryDevToolsV2) == seq![
            'q',
            'u',
            'e',
            'r',
            'y',
            '-',
            'd',
            'e',
            'v',
            't',
            'o',
            'o',
            'l',
            's',
            '-',
            'v',
            '2',
        ],
        page_host(Page::About) == seq!['a', 'b', 'o', 'u', 't'],
{
    reveal_strlit("home");
    reveal_strlit("form");
    reveal_strlit("settings");
    reveal_strlit("notifications");
    reveal_strlit("diagnostics");
    reveal_strlit("error-playground");
    reveal_strlit("query-playground");
    reveal_strlit("query-devtools-v2");
    reveal_strlit("about");
    assert(page_host(Page::Home) =~= seq!['h', 'o', 'm', 'e']);
    assert(page_host(Page::Form) =~= seq!['f', 'o', 'r', 'm']);
    assert(page_host(Page::Settings) =~= seq!['s', 'e', 't', 't', 'i', 'n', 'g', 's']);
    assert(page_host(Page::Notifications) =~= seq![
        'n',
        'o',
        't',
        'i',
        'f',
        'i',
        'c',
        'a',
        't',
        'i',
        'o',
        'n',
        's',
    ]);
    assert(page_host(Page::Diagnostics) =~= seq![
        'd',
        'i',
        'a',
        'g',
        'n',
        'o',
        's',
        't',
        'i',
        'c',
        's',
    ]);
    assert(page_host(Page::ErrorPlayground) =~= seq![
        'e',
        'r',
        'r',
        'o',
        'r',
        '-',
        'p',
        'l',
        'a',
        'y',
        'g',
        'r',
        'o',
        'u',
        'n',
        'd',
    ]);
    assert(page_host(Page::QueryPlayground) =~= seq![
        'q',
        'u',
        'e',
        'r',
        'y',
        '-',
        'p',
        'l',
        'a',
        'y',
        'g',
        'r',
        'o',
        'u',
        'n',
        'd',
    ]);
    assert(page_host(Page::QueryDevToolsV2) =~= seq![
        'q',
        'u',
        'e',
        'r',
        'y',
        '-',
        'd',
        'e',
        'v',
        't',
        'o',
        'o',
        'l',
        's',
        '-',
        'v',
        '2',
    ]);
    assert(page_host(Page::About) =~= seq!['a', 'b', 'o', 'u', 't']);
}

/// Distinct pages have distinct deep-link hosts, so a host names at most one
/// page.
pub proof fn lemma_host_injective(p: Page, q: Page)
    ensures
        page_host(p) == page_host(q) ==> p == q,
{
    reveal_page_hosts();
    if page_host(p) == page_host(q) && p != q {
        let a = page_host(p);
        let b = page_host(q);
        assert(a.len() == b.len());
        assert(a[0] == b[0]);
        assert(a[1] == b[1]);
        assert(a[2] == b[2]);
        assert(a[3] == b[3]);
        if a.len() > 6 {
            assert(a[6] == b[6]);
        }
    }
}

/// `from_host` undoes `host`: every page is found again by its host.
pub proof fn lemma_from_host_of_host(p: Page)
    ensures
        page_for_host(page_host(p)) == Some(p),
{
    let h = page_host(p);
    assert(is_page_host(h));
    let q = choose|q: Page| page_host(q) == h;
    lemma_host_injective(p, q);
}

/// Every page occurs exactly once in [`all_pages`].
pub proof fn lemma_all_pages_complete(p: Page)
    ensures
        all_pages().contains(p),
        all_pages().no_duplicates(),
{
    match p {
        Page::Home => assert(all_pages()[0] == p),
        Page::Form => assert(all_pages()[1] == p),
        Page::Settings => assert(all_pages()[2] == p),
        Page::Notifications => assert(all_pages()[3] == p),
        Page::Diagnostics => assert(all_pages()[4] == p),
        Page::QueryPlayground => assert(all_pages()[5] == p),
        Page::QueryDevToolsV2 => assert(all_pages()[6] == p),
        Page::ErrorPlayground => assert(all_pages()[7] == p),
        Page::About => assert(all_pages()[8] == p),
    }
}

pub const ALL_PAGES: [Page; 9] = [
    Page::Home,
    Page::Form,
    Page::Settings,
    Page::Notifications,
    Page::Diagnostics,
    Page::QueryPlayground,
    Page::QueryDevToolsV2,
    Page::ErrorPlayground,
    Page::About,
];

impl Page {
    /// The sidebar and header title.
    pub fn title(&self) -> (r: &'static str)
        ensures
            r@ == page_title(*self),
    {
        match self {
            Page::Home => "Home",
            Page::Form => "Form",
            Page::Settings => "Settings",
            Page::Notifications => "Notifications",
            Page::Diagnostics => "Diagnostics",
            Page::QueryPlayground => "Query Playground",
            Page::QueryDevToolsV2 => "Query DevTools V2",
            Page::ErrorPlayground => "Error Playground",
            Page::About => "About",
        }
    }

    /// Deep-link host segment; the single source of truth for the page/host
    /// mapping.
    pub fn host(self) -> (r: &'static str)
        ensures
            r@ == page_host(self),
    {
        match self {
            Page::Home => "home",
            Page::Form => "form",
            Page::Settings => "settings",
            Page::Notifications => "notifications",
            Page::Diagnostics => "diagnostics",
            Page::ErrorPlayground => "error-playground",
            Page::QueryPlayground => "query-playground",
            Page::QueryDevToolsV2 => "query-devtools-v2",
            Page::About => "about",
        }
    }

    /// Inverse of [`host`](Self::host); `None` for an unrecognized host.
    pub fn from_host(host: &str) -> (r: Option<Page>)
        ensures
            r == page_for_host(host@),
    {
        let hc = to_chars(host);
        Self::from_host_chars(hc.as_slice())
    }

    /// [`from_host`](Self::from_host) over characters.
    pub fn from_host_chars(host: &[char]) -> (r: Option<Page>)
        ensures
            r == page_for_host(host@),
    {
        let all = Self::all();
        let mut i: usize = 0;
        while i < all.len()
            invariant
                all@ == all_pages(),
                i <= all.len(),
                forall|j: int| 0 <= j < i ==> page_host(all_pages()[j]) != host@,
            decreases all.len() - i,
        {
            let p = all[i];
            if chars_eq_str(host, p.host()) {
                proof {
                    lemma_from_host_of_host(p);
                }
                return Some(p);
            }
            i = i + 1;
        }
        proof {
            assert forall|p: Page| page_host(p) != host@ by {
                lemma_all_pages_complete(p);
                let k = choose|k: int| 0 <= k < all_pages().len() && all_pages()[k] == p;
            }
        }
        None
    }

    /// Every page, in sidebar order.
    pub fn all() -> (r: &'static [Page])
        ensures
            r@ == all_pages(),
    {
        let r: &'static [Page] = &ALL_PAGES;
        assert(r@ =~= all_pages());
        r
    }
}

} // verus!
