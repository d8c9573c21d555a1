//! The application state record and its command surface.
//!
//! The hosted web UI may issue four commands against the native side: read the
//! web URL, replace it, read the desktop-mode flag, replace it. The record is
//! created with default values when the host registers managed state, and the
//! setters persist what they are given, so that a later getter returns the
//! value most recently set.

use vstd::prelude::*;

verus! {

/// Mathematical view of the state record: the URL as a sequence of characters
/// and the mode flag as a plain boolean.
pub struct StateView {
    pub web_url: Seq<char>,
    pub desktop_mode: bool,
}

impl StateView {
    /// The state a freshly registered record holds: empty URL, desktop mode off.
    pub open spec fn init() -> StateView {
        StateView { web_url: Seq::empty(), desktop_mode: false }
    }

    /// The record after the web URL has been replaced; the mode flag is untouched.
    pub open spec fn with_web_url(self, url: Seq<char>) -> StateView {
        StateView { web_url: url, ..self }
    }

    /// The record after the desktop-mode flag has been replaced; the URL is untouched.
    pub open spec fn with_desktop_mode(self, enabled: bool) -> StateView {
        StateView { desktop_mode: enabled, ..self }
    }
}

/// The flat state record the host keeps for the hosted web UI.
pub struct AppState {
    web_url: String,
    desktop_mode: bool,
}

impl View for AppState {
    type V = StateView;

    closed spec fn view(&self) -> StateView {
        StateView { web_url: self.web_url@, desktop_mode: self.desktop_mode }
    }
}

impl AppState {
    /// Construct the record with its default contents.
    pub fn new() -> (s: AppState)
        ensures
            s@ == StateView::init(),
    {
        AppState { web_url: String::new(), desktop_mode: false }
    }

    /// Answer the "get web URL" command: the stored URL, unchanged.
    pub fn get_web_url(&self) -> (url: String)
        ensures
            url@ == self@.web_url,
    {
        self.web_url.clone()
    }

    /// Answer the "set web URL" command: store the URL for later getters.
    pub fn set_web_url(&mut self, url: String)
        ensures
            final(self)@ == old(self)@.with_web_url(url@),
    {
        self.web_url = url;
    }

    /// Answer the "is desktop mode" command: the stored flag, unchanged.
    pub fn is_desktop_mode(&self) -> (enabled: bool)
        ensures
            enabled == self@.desktop_mode,
    {
        self.desktop_mode
    }

    /// Answer the "set desktop mode" command: store the flag for later getters.
    pub fn set_desktop_mode(&mut self, enabled: bool)
        ensures
            final(self)@ == old(self)@.with_desktop_mode(enabled),
    {
        self.desktop_mode = enabled;
    }
}

impl Default for AppState {
    /// The default record equals the freshly constructed one.
    fn default() -> (s: AppState)
        ensures
            s@ == StateView::init(),
    {
        AppState::new()
    }
}

/// Law: setting the desktop-mode flag to `b` and then reading it yields `b`,
/// whatever the record held before, and the URL is left as it was.
pub proof fn lemma_desktop_mode_round_trip(s: StateView, b: bool)
    ensures
        s.with_desktop_mode(b).desktop_mode == b,
        s.with_desktop_mode(b).web_url == s.web_url,
{
}

/// Law: setting the web URL to `u` and then reading it yields exactly `u`,
/// whatever the record held before, and the mode flag is left as it was.
pub proof fn lemma_web_url_round_trip(s: StateView, u: Seq<char>)
    ensures
        s.with_web_url(u).web_url == u,
        s.with_web_url(u).desktop_mode == s.desktop_mode,
{
}

/// Law: a freshly constructed record, with no prior mutation, reports the
/// empty URL and desktop mode off.
pub proof fn lemma_init_defaults()
    ensures
        StateView::init().web_url == Seq::<char>::empty(),
        !StateView::init().desktop_mode,
{
}

} // verus!
