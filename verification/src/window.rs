//! The window-session model: a bounded table of sessions keyed by small
//! numeric identifiers, and the handle type whose operations act on it.
//!
//! All state of a window lives in the table, keyed by the identifier; a
//! handle owns nothing but the integer key, several handles may carry the
//! same key, and the table is the sole arbiter of a key's validity. An
//! operation through a handle whose key is not registered is a no-op or
//! reports failure — it never panics and never corrupts the table.

use vstd::prelude::*;

use crate::browser::Browser;
use crate::marshal::has_nul_char;

verus! {

/// Window identifiers run from 1 to one below this bound. Identifier 0 never
/// names a session; it is the failure value of identifier-returning calls.
pub const MAX_IDS: usize = 256;

/// The mathematical value of one slot of the table: whether its identifier
/// is registered and shown, every configurable setting, and the scripts
/// submitted for execution, in order.
#[verifier::ext_equal]
pub ghost struct SessionView {
    pub registered: bool,
    pub shown: bool,
    pub webview: bool,
    pub kiosk: bool,
    pub hidden: bool,
    pub public_access: bool,
    pub event_blocking: bool,
    pub content: Seq<char>,
    pub url: Seq<char>,
    pub root_folder: Seq<char>,
    pub icon: Seq<char>,
    pub icon_type: Seq<char>,
    pub profile_name: Seq<char>,
    pub profile_path: Seq<char>,
    pub proxy: Seq<char>,
    pub browser: Browser,
    pub width: u32,
    pub height: u32,
    pub pos_x: u32,
    pub pos_y: u32,
    pub port: usize,
    pub scripts: Seq<Seq<char>>,
}

/// The pristine value of a slot: not registered, nothing shown, every
/// setting at its default.
pub open spec fn vacant() -> SessionView {
    SessionView {
        registered: false,
        shown: false,
        webview: false,
        kiosk: false,
        hidden: false,
        public_access: false,
        event_blocking: false,
        content: Seq::empty(),
        url: Seq::empty(),
        root_folder: Seq::empty(),
        icon: Seq::empty(),
        icon_type: Seq::empty(),
        profile_name: Seq::empty(),
        profile_path: Seq::empty(),
        proxy: Seq::empty(),
        browser: Browser::NoBrowser,
        width: 0,
        height: 0,
        pos_x: 0,
        pos_y: 0,
        port: 0,
        scripts: Seq::empty(),
    }
}

/// The value of a slot the moment its identifier is handed out: registered,
/// not yet shown, every setting at its default.
pub open spec fn fresh_session() -> SessionView {
    SessionView { registered: true, ..vacant() }
}

/// Whether the identifier names a registered session of the table value.
pub open spec fn live_at(t: Seq<SessionView>, id: int) -> bool {
    0 <= id < t.len() && t[id].registered
}

/// Whether the identifier names a registered session that is shown.
pub open spec fn shown_at(t: Seq<SessionView>, id: int) -> bool {
    live_at(t, id) && t[id].shown
}

/// What registering a fresh identifier does to a table value: the identifier
/// was free, and its slot alone is re-written to a fresh session.
pub open spec fn registers_fresh(pre: Seq<SessionView>, post: Seq<SessionView>, id: int) -> bool {
    &&& 1 <= id < pre.len()
    &&& !pre[id].registered
    &&& post == pre.update(id, fresh_session())
}

/// One slot of the table, as executable state.
struct Session {
    registered: bool,
    shown: bool,
    webview: bool,
    kiosk: bool,
    hidden: bool,
    public_access: bool,
    event_blocking: bool,
    content: String,
    url: String,
    root_folder: String,
    icon: String,
    icon_type: String,
    profile_name: String,
    profile_path: String,
    proxy: String,
    browser: Browser,
    width: u32,
    height: u32,
    pos_x: u32,
    pos_y: u32,
    port: usize,
    scripts: Vec<String>,
}

impl View for Session {
    type V = SessionView;

    closed spec fn view(&self) -> SessionView {
        SessionView {
            registered: self.registered,
            shown: self.shown,
            webview: self.webview,
            kiosk: self.kiosk,
            hidden: self.hidden,
            public_access: self.public_access,
            event_blocking: self.event_blocking,
            content: self.content@,
            url: self.url@,
            root_folder: self.root_folder@,
            icon: self.icon@,
            icon_type: self.icon_type@,
            profile_name: self.profile_name@,
            profile_path: self.profile_path@,
            proxy: self.proxy@,
            browser: self.browser,
            width: self.width,
            height: self.height,
            pos_x: self.pos_x,
            pos_y: self.pos_y,
            port: self.port,
            scripts: self.scripts@.map_values(|s: String| s@),
        }
    }
}

impl Session {
    /// A slot at its pristine value.
    fn new_vacant() -> (s: Session)
        ensures
            s@ == vacant(),
    {
        let s = Session {
            registered: false,
            shown: false,
            webview: false,
            kiosk: false,
            hidden: false,
            public_access: false,
            event_blocking: false,
            content: String::new(),
            url: String::new(),
            root_folder: String::new(),
            icon: String::new(),
            icon_type: String::new(),
            profile_name: String::new(),
            profile_path: String::new(),
            proxy: String::new(),
            browser: Browser::NoBrowser,
            width: 0,
            height: 0,
            pos_x: 0,
            pos_y: 0,
            port: 0,
            scripts: Vec::new(),
        };
        proof {
            assert(s@ =~= vacant());
        }
        s
    }

    /// A slot the moment its identifier is handed out.
    fn new_fresh() -> (s: Session)
        ensures
            s@ == fresh_session(),
    {
        let mut s = Session::new_vacant();
        s.registered = true;
        proof {
            assert(s@ =~= fresh_session());
        }
        s
    }
}

/// The table of sessions, one slot per identifier: the explicit counterpart
/// of the process-wide registry a native layer would keep behind the
/// entry points. It alone decides which identifiers are valid.
pub struct WindowTable {
    sessions: Vec<Session>,
}

impl View for WindowTable {
    type V = Seq<SessionView>;

    closed spec fn view(&self) -> Seq<SessionView> {
        self.sessions@.map_values(|s: Session| s@)
    }
}

impl WindowTable {
    /// Table well-formedness: one slot per identifier of the range, and the
    /// reserved identifier 0 never registered.
    pub open spec fn wf(self) -> bool {
        self@.len() == MAX_IDS && !self@[0].registered
    }

    /// Whether the identifier names a registered session.
    pub open spec fn live(self, id: int) -> bool {
        live_at(self@, id)
    }

    /// Whether the identifier names a registered session that is shown.
    pub open spec fn shown(self, id: int) -> bool {
        shown_at(self@, id)
    }

    /// Whether some identifier of the valid range is still free.
    pub open spec fn has_free(self) -> bool {
        exists|i: int| 1 <= i < self@.len() && !self@[i].registered
    }

    /// An empty table: every slot vacant.
    pub fn new() -> (t: WindowTable)
        ensures
            t.wf(),
            forall|i: int| 0 <= i < t@.len() ==> t@[i] == vacant(),
    {
        let mut sessions: Vec<Session> = Vec::new();
        while sessions.len() < MAX_IDS
            invariant
                sessions@.len() <= MAX_IDS,
                forall|i: int| 0 <= i < sessions@.len() ==> sessions@[i]@ == vacant(),
            decreases MAX_IDS - sessions@.len(),
        {
            sessions.push(Session::new_vacant());
        }
        WindowTable { sessions }
    }
}

/// A window handle: nothing but the integer key of one slot of a table.
pub struct Window {
    inner: usize,
}

impl View for Window {
    type V = int;

    closed spec fn view(&self) -> int {
        self.inner as int
    }
}

impl Window {
    /// The identifier this handle carries.
    pub fn id(&self) -> (id: usize)
        ensures
            id == self@,
    {
        self.inner
    }

    /// Request a fresh identifier: the first free one, scanning upward from
    /// 1, is registered with a fresh session and handed out. When every
    /// identifier is taken, the table is unchanged and the handle carries
    /// the failure identifier 0.
    pub fn new(table: &mut WindowTable) -> (w: Window)
        requires
            old(table).wf(),
        ensures
            final(table).wf(),
            0 <= w@ < MAX_IDS,
            old(table).has_free() ==> registers_fresh(old(table)@, final(table)@, w@) && (
            forall|j: int| 1 <= j < w@ ==> old(table)@[j].registered),
            !old(table).has_free() ==> w@ == 0 && final(table)@ == old(table)@,
    {
        let mut id: usize = 1;
        while id < MAX_IDS && table.sessions[id].registered
            invariant
                old(table).wf(),
                *table == *old(table),
                1 <= id <= MAX_IDS,
                forall|j: int| 1 <= j < id ==> old(table)@[j].registered,
            decreases MAX_IDS - id,
        {
            id += 1;
        }
        if id < MAX_IDS {
            table.sessions[id] = Session::new_fresh();
            proof {
                assert(table@ =~= old(table)@.update(id as int, fresh_session()));
            }
            Window { inner: id }
        } else {
            proof {
                assert(!old(table).has_free());
            }
            Window { inner: 0 }
        }
    }

    /// Request a specific identifier. The identifier must lie in the valid
    /// range — rather than forwarding an out-of-range value to undefined
    /// behaviour, the precondition rules it out. Whatever the slot held
    /// before is discarded and re-written as a fresh session.
    pub fn new_with_id(table: &mut WindowTable, window_id: usize) -> (w: Window)
        requires
            old(table).wf(),
            1 <= window_id < MAX_IDS,
        ensures
            final(table).wf(),
            w@ == window_id,
            final(table)@ == old(table)@.update(window_id as int, fresh_session()),
    {
        table.sessions[window_id] = Session::new_fresh();
        proof {
            assert(table@ =~= old(table)@.update(window_id as int, fresh_session()));
        }
        Window { inner: window_id }
    }

    /// The first free identifier, without reserving it, or 0 when every
    /// identifier of the range is taken.
    pub fn get_free_id(table: &WindowTable) -> (id: usize)
        requires
            table.wf(),
        ensures
            0 <= id < MAX_IDS,
            table.has_free() ==> 1 <= id && !table@[id as int].registered && (forall|j: int|
                1 <= j < id ==> table@[j].registered),
            !table.has_free() ==> id == 0,
    {
        let mut id: usize = 1;
        while id < MAX_IDS && table.sessions[id].registered
            invariant
                table.wf(),
                1 <= id <= MAX_IDS,
                forall|j: int| 1 <= j < id ==> table@[j].registered,
            decreases MAX_IDS - id,
        {
            id += 1;
        }
        if id < MAX_IDS {
            id
        } else {
            proof {
                assert(!table.has_free());
            }
            0
        }
    }

    /// Whether this handle's session is registered and currently shown.
    pub fn is_shown(&self, table: &WindowTable) -> (r: bool)
        requires
            table.wf(),
        ensures
            r == table.shown(self@),
    {
        self.inner < table.sessions.len() && table.sessions[self.inner].registered
            && table.sessions[self.inner].shown
    }

    /// The browser recommended for this handle: the one the session is
    /// already using when one has been chosen, the "any browser" wildcard
    /// when none has, and the "no browser" marker for a handle that is not
    /// live.
    pub fn get_best_browser(&self, table: &WindowTable) -> (b: Browser)
        requires
            table.wf(),
        ensures
            !table.live(self@) ==> b == Browser::NoBrowser,
            table.live(self@) && table@[self@].browser == Browser::NoBrowser ==> b
                == Browser::AnyBrowser,
            table.live(self@) && table@[self@].browser != Browser::NoBrowser ==> b == table@[self@].browser,
    {
        if self.inner < table.sessions.len() && table.sessions[self.inner].registered {
            let sess = &table.sessions[self.inner];
            if sess.browser == Browser::NoBrowser {
                Browser::AnyBrowser
            } else {
                sess.browser
            }
        } else {
            Browser::NoBrowser
        }
    }

    /// Show the window: record the content handed over and mark the session
    /// shown (showing again refreshes the content). Reports whether display
    /// happened; on a handle that is not live it reports failure and changes
    /// nothing. The content, like every text argument of this layer, must be
    /// free of embedded terminator characters, since such text cannot cross
    /// a terminated-buffer boundary.
    pub fn show(&self, table: &mut WindowTable, content: &str) -> (r: bool)
        requires
            old(table).wf(),
            !has_nul_char(content@),
        ensures
            final(table).wf(),
            r == old(table).live(self@),
            old(table).live(self@) ==> final(table)@ == old(table)@.update(
                self@,
                (SessionView {
                    shown: true,
                    webview: false,
                    content: content@,
                    ..old(table)@[self@]
                }),
            ),
            !old(table).live(self@) ==> final(table)@ == old(table)@,
    {
        if self.inner < table.sessions.len() && table.sessions[self.inner].registered {
            let sess = &mut table.sessions[self.inner];
            sess.shown = true;
            sess.webview = false;
            sess.content = content.to_owned();
            proof {
                assert(table@ =~= old(table)@.update(
                    self@,
                    (SessionView {
                        shown: true,
                        webview: false,
                        content: content@,
                        ..old(table)@[self@]
                    }),
                ));
            }
            true
        } else {
            false
        }
    }

    /// Show the window in a specific browser: as `show`, but the chosen
    /// browser is recorded too, and nothing is reported — on a handle that
    /// is not live the call simply changes nothing.
    pub fn show_browser(&self, table: &mut WindowTable, content: &str, browser: Browser)
        requires
            old(table).wf(),
            !has_nul_char(content@),
        ensures
            final(table).wf(),
            old(table).live(self@) ==> final(table)@ == old(table)@.update(
                self@,
                (SessionView {
                    shown: true,
                    webview: false,
                    content: content@,
                    browser: browser,
                    ..old(table)@[self@]
                }),
            ),
            !old(table).live(self@) ==> final(table)@ == old(table)@,
    {
        if self.inner < table.sessions.len() && table.sessions[self.inner].registered {
            let sess = &mut table.sessions[self.inner];
            sess.shown = true;
            sess.webview = false;
            sess.content = content.to_owned();
            sess.browser = browser;
            proof {
                assert(table@ =~= old(table)@.update(
                    self@,
                    (SessionView {
                        shown: true,
                        webview: false,
                        content: content@,
                        browser: browser,
                        ..old(table)@[self@]
                    }),
                ));
            }
        }
    }

    /// Show the window as the lighter embedded web-view rendering: as
    /// `show`, but the session is marked as an embedded view, and nothing is
    /// reported.
    pub fn show_webview(&self, table: &mut WindowTable, content: &str)
        requires
            old(table).wf(),
            !has_nul_char(content@),
        ensures
            final(table).wf(),
            old(table).live(self@) ==> final(table)@ == old(table)@.update(
                self@,
                (SessionView {
                    shown: true,
                    webview: true,
                    content: content@,
                    ..old(table)@[self@]
                }),
            ),
            !old(table).live(self@) ==> final(table)@ == old(table)@,
    {
        if self.inner < table.sessions.len() && table.sessions[self.inner].registered {
            let sess = &mut table.sessions[self.inner];
            sess.shown = true;
            sess.webview = true;
            sess.content = content.to_owned();
            proof {
                assert(table@ =~= old(table)@.update(
                    self@,
                    (SessionView {
                        shown: true,
                        webview: true,
                        content: content@,
                        ..old(table)@[self@]
                    }),
                ));
            }
        }
    }

    /// Put the window in or out of kiosk (full screen) mode. A no-op on a
    /// handle that is not live.
    pub fn set_kiosk(&self, table: &mut WindowTable, status: bool)
        requires
            old(table).wf(),
        ensures
            final(table).wf(),
            old(table).live(self@) ==> final(table)@ == old(table)@.update(
                self@,
                (SessionView { kiosk: status, ..old(table)@[self@] }),
            ),
            !old(table).live(self@) ==> final(table)@ == old(table)@,
    {
        if self.inner < table.sessions.len() && table.sessions[self.inner].registered {
            let sess = &mut table.sessions[self.inner];
            sess.kiosk = status;
            proof {
                assert(table@ =~= old(table)@.update(
                    self@,
                    (SessionView { kiosk: status, ..old(table)@[self@] }),
                ));
            }
        }
    }

    /// Close the window: the session stops being shown, but stays registered
    /// with everything recorded under its identifier. A no-op on a handle
    /// that is not live.
    pub fn close(&self, table: &mut WindowTable)
        requires
            old(table).wf(),
        ensures
            final(table).wf(),
            old(table).live(self@) ==> final(table)@ == old(table)@.update(
                self@,
                (SessionView { shown: false, webview: false, ..old(table)@[self@] }),
            ),
            !old(table).live(self@) ==> final(table)@ == old(table)@,
    {
        if self.inner < table.sessions.len() && table.sessions[self.inner].registered {
            let sess = &mut table.sessions[self.inner];
            sess.shown = false;
            sess.webview = false;
            proof {
                assert(table@ =~= old(table)@.update(
                    self@,
                    (SessionView { shown: false, webview: false, ..old(table)@[self@] }),
                ));
            }
        }
    }

    /// Close the window and release everything recorded under the
    /// identifier: the slot returns to its pristine value and the identifier
    /// becomes free again. A no-op on a handle that is not live.
    pub fn destroy(&self, table: &mut WindowTable)
        requires
            old(table).wf(),
        ensures
            final(table).wf(),
            old(table).live(self@) ==> final(table)@ == old(table)@.update(self@, vacant()),
            !old(table).live(self@) ==> final(table)@ == old(table)@,
    {
        if self.inner < table.sessions.len() && table.sessions[self.inner].registered {
            table.sessions[self.inner] = Session::new_vacant();
            proof {
                assert(table@ =~= old(table)@.update(self@, vacant()));
            }
        }
    }

    /// Set the web-server root folder path. Accepted — recorded and
    /// acknowledged — exactly when the handle is live and the session is not
    /// yet shown; any other call reports failure and changes nothing.
    pub fn set_root_folder(&self, table: &mut WindowTable, path: &str) -> (r: bool)
        requires
            old(table).wf(),
            !has_nul_char(path@),
        ensures
            final(table).wf(),
            r == (old(table).live(self@) && !old(table).shown(self@)),
            r ==> final(table)@ == old(table)@.update(
                self@,
                (SessionView { root_folder: path@, ..old(table)@[self@] }),
            ),
            !r ==> final(table)@ == old(table)@,
    {
        if self.inner < table.sessions.len() && table.sessions[self.inner].registered
            && !table.sessions[self.inner].shown {
            let sess = &mut table.sessions[self.inner];
            sess.root_folder = path.to_owned();
            proof {
                assert(table@ =~= old(table)@.update(
                    self@,
                    (SessionView { root_folder: path@, ..old(table)@[self@] }),
                ));
            }
            true
        } else {
            false
        }
    }

    /// Set the embedded favicon and its MIME type. A no-op on a handle that
    /// is not live.
    pub fn set_icon(&self, table: &mut WindowTable, icon: &str, icon_type: &str)
        requires
            old(table).wf(),
            !has_nul_char(icon@),
            !has_nul_char(icon_type@),
        ensures
            final(table).wf(),
            old(table).live(self@) ==> final(table)@ == old(table)@.update(
                self@,
                (SessionView { icon: icon@, icon_type: icon_type@, ..old(table)@[self@] }),
            ),
            !old(table).live(self@) ==> final(table)@ == old(table)@,
    {
        if self.inner < table.sessions.len() && table.sessions[self.inner].registered {
            let sess = &mut table.sessions[self.inner];
            sess.icon = icon.to_owned();
            sess.icon_type = icon_type.to_owned();
            proof {
                assert(table@ =~= old(table)@.update(
                    self@,
                    (SessionView { icon: icon@, icon_type: icon_type@, ..old(table)@[self@] }),
                ));
            }
        }
    }

    /// Put the window in or out of hidden mode. A no-op on a handle that is
    /// not live.
    pub fn set_hide(&self, table: &mut WindowTable, status: bool)
        requires
            old(table).wf(),
        ensures
            final(table).wf(),
            old(table).live(self@) ==> final(table)@ == old(table)@.update(
                self@,
                (SessionView { hidden: status, ..old(table)@[self@] }),
            ),
            !old(table).live(self@) ==> final(table)@ == old(table)@,
    {
        if self.inner < table.sessions.len() && table.sessions[self.inner].registered {
            let sess = &mut table.sessions[self.inner];
            sess.hidden = status;
            proof {
                assert(table@ =~= old(table)@.update(
                    self@,
                    (SessionView { hidden: status, ..old(table)@[self@] }),
                ));
            }
        }
    }

    /// Set the window size. A no-op on a handle that is not live.
    pub fn set_size(&self, table: &mut WindowTable, width: u32, height: u32)
        requires
            old(table).wf(),
        ensures
            final(table).wf(),
            old(table).live(self@) ==> final(table)@ == old(table)@.update(
                self@,
                (SessionView { width: width, height: height, ..old(table)@[self@] }),
            ),
            !old(table).live(self@) ==> final(table)@ == old(table)@,
    {
        if self.inner < table.sessions.len() && table.sessions[self.inner].registered {
            let sess = &mut table.sessions[self.inner];
            sess.width = width;
            sess.height = height;
            proof {
                assert(table@ =~= old(table)@.update(
                    self@,
                    (SessionView { width: width, height: height, ..old(table)@[self@] }),
                ));
            }
        }
    }

    /// Set the window position. A no-op on a handle that is not live.
    pub fn set_position(&self, table: &mut WindowTable, x: u32, y: u32)
        requires
            old(table).wf(),
        ensures
            final(table).wf(),
            old(table).live(self@) ==> final(table)@ == old(table)@.update(
                self@,
                (SessionView { pos_x: x, pos_y: y, ..old(table)@[self@] }),
            ),
            !old(table).live(self@) ==> final(table)@ == old(table)@,
    {
        if self.inner < table.sessions.len() && table.sessions[self.inner].registered {
            let sess = &mut table.sessions[self.inner];
            sess.pos_x = x;
            sess.pos_y = y;
            proof {
                assert(table@ =~= old(table)@.update(
                    self@,
                    (SessionView { pos_x: x, pos_y: y, ..old(table)@[self@] }),
                ));
            }
        }
    }

    /// Set the browser profile to use; an empty name and path mean the
    /// default user profile. A no-op on a handle that is not live.
    pub fn set_profile(&self, table: &mut WindowTable, name: &str, path: &str)
        requires
            old(table).wf(),
            !has_nul_char(name@),
            !has_nul_char(path@),
        ensures
            final(table).wf(),
            old(table).live(self@) ==> final(table)@ == old(table)@.update(
                self@,
                (SessionView { profile_name: name@, profile_path: path@, ..old(table)@[self@] }),
            ),
            !old(table).live(self@) ==> final(table)@ == old(table)@,
    {
        if self.inner < table.sessions.len() && table.sessions[self.inner].registered {
            let sess = &mut table.sessions[self.inner];
            sess.profile_name = name.to_owned();
            sess.profile_path = path.to_owned();
            proof {
                assert(table@ =~= old(table)@.update(
                    self@,
                    (SessionView {
                        profile_name: name@,
                        profile_path: path@,
                        ..old(table)@[self@]
                    }),
                ));
            }
        }
    }

    /// Set the browser proxy server to use; meant to be called before
    /// `show`. A no-op on a handle that is not live.
    pub fn set_proxy(&self, table: &mut WindowTable, proxy_server: &str)
        requires
            old(table).wf(),
            !has_nul_char(proxy_server@),
        ensures
            final(table).wf(),
            old(table).live(self@) ==> final(table)@ == old(table)@.update(
                self@,
                (SessionView { proxy: proxy_server@, ..old(table)@[self@] }),
            ),
            !old(table).live(self@) ==> final(table)@ == old(table)@,
    {
        if self.inner < table.sessions.len() && table.sessions[self.inner].registered {
            let sess = &mut table.sessions[self.inner];
            sess.proxy = proxy_server.to_owned();
            proof {
                assert(table@ =~= old(table)@.update(
                    self@,
                    (SessionView { proxy: proxy_server@, ..old(table)@[self@] }),
                ));
            }
        }
    }

    /// The current address of the session: whatever the last navigation set,
    /// or the empty string for a session that has none — and for a handle
    /// that is not live.
    pub fn get_url(&self, table: &WindowTable) -> (url: String)
        requires
            table.wf(),
        ensures
            table.live(self@) ==> url@ == table@[self@].url,
            !table.live(self@) ==> url@ == Seq::<char>::empty(),
    {
        if self.inner < table.sessions.len() && table.sessions[self.inner].registered {
            let sess = &table.sessions[self.inner];
            sess.url.clone()
        } else {
            String::new()
        }
    }

    /// Allow or forbid access to the window's address from public networks;
    /// by default only the local host may reach it. A no-op on a handle that
    /// is not live.
    pub fn set_public(&self, table: &mut WindowTable, status: bool)
        requires
            old(table).wf(),
        ensures
            final(table).wf(),
            old(table).live(self@) ==> final(table)@ == old(table)@.update(
                self@,
                (SessionView { public_access: status, ..old(table)@[self@] }),
            ),
            !old(table).live(self@) ==> final(table)@ == old(table)@,
    {
        if self.inner < table.sessions.len() && table.sessions[self.inner].registered {
            let sess = &mut table.sessions[self.inner];
            sess.public_access = status;
            proof {
                assert(table@ =~= old(table)@.update(
                    self@,
                    (SessionView { public_access: status, ..old(table)@[self@] }),
                ));
            }
        }
    }

    /// Navigate to a specific address: the session's current address becomes
    /// the one handed over. A no-op on a handle that is not live.
    pub fn navigate(&self, table: &mut WindowTable, url: &str)
        requires
            old(table).wf(),
            !has_nul_char(url@),
        ensures
            final(table).wf(),
            old(table).live(self@) ==> final(table)@ == old(table)@.update(
                self@,
                (SessionView { url: url@, ..old(table)@[self@] }),
            ),
            !old(table).live(self@) ==> final(table)@ == old(table)@,
    {
        if self.inner < table.sessions.len() && table.sessions[self.inner].registered {
            let sess = &mut table.sessions[self.inner];
            sess.url = url.to_owned();
            proof {
                assert(table@ =~= old(table)@.update(
                    self@,
                    (SessionView { url: url@, ..old(table)@[self@] }),
                ));
            }
        }
    }

    /// Remove the browser profile folder recorded for this session: the
    /// profile name and path return to the default (empty) profile. The
    /// ordering discipline — calling this only once every window sharing the
    /// profile is closed — stays the caller's, as it is at the native layer.
    /// A no-op on a handle that is not live.
    pub fn delete_profile(&self, table: &mut WindowTable)
        requires
            old(table).wf(),
        ensures
            final(table).wf(),
            old(table).live(self@) ==> final(table)@ == old(table)@.update(
                self@,
                (SessionView {
                    profile_name: Seq::empty(),
                    profile_path: Seq::empty(),
                    ..old(table)@[self@]
                }),
            ),
            !old(table).live(self@) ==> final(table)@ == old(table)@,
    {
        if self.inner < table.sessions.len() && table.sessions[self.inner].registered {
            let sess = &mut table.sessions[self.inner];
            sess.profile_name = String::new();
            sess.profile_path = String::new();
            proof {
                assert(table@ =~= old(table)@.update(
                    self@,
                    (SessionView {
                        profile_name: Seq::empty(),
                        profile_path: Seq::empty(),
                        ..old(table)@[self@]
                    }),
                ));
            }
        }
    }

    /// The identifier of the browser's parent process. This model runs no
    /// browser process, so every session reports the value the native
    /// convention reserves for "not applicable": zero.
    pub fn get_parent_process_id(&self, table: &WindowTable) -> (pid: usize)
        requires
            table.wf(),
        ensures
            pid == 0,
    {
        0
    }

    /// The identifier of the browser's last child process. This model runs
    /// no browser process, so every session reports the value the native
    /// convention reserves for "not applicable": zero.
    pub fn get_child_process_id(&self, table: &WindowTable) -> (pid: usize)
        requires
            table.wf(),
        ensures
            pid == 0,
    {
        0
    }

    /// Set a custom web-server network port. Accepted — recorded and
    /// acknowledged — exactly when the handle is live, the session is not
    /// yet shown, and the port is a non-zero 16-bit value; any other call
    /// reports failure and changes nothing.
    pub fn set_port(&self, table: &mut WindowTable, port: usize) -> (r: bool)
        requires
            old(table).wf(),
        ensures
            final(table).wf(),
            r == (old(table).live(self@) && !old(table).shown(self@) && 1 <= port <= 65535),
            r ==> final(table)@ == old(table)@.update(
                self@,
                (SessionView { port: port, ..old(table)@[self@] }),
            ),
            !r ==> final(table)@ == old(table)@,
    {
        if self.inner < table.sessions.len() && table.sessions[self.inner].registered
            && !table.sessions[self.inner].shown && 1 <= port && port <= 65535 {
            let sess = &mut table.sessions[self.inner];
            sess.port = port;
            proof {
                assert(table@ =~= old(table)@.update(
                    self@,
                    (SessionView { port: port, ..old(table)@[self@] }),
                ));
            }
            true
        } else {
            false
        }
    }

    /// Choose whether the session's events are processed one at a time in a
    /// single blocking thread, or each in its own non-blocking thread. A
    /// no-op on a handle that is not live.
    pub fn set_event_blocking(&self, table: &mut WindowTable, status: bool)
        requires
            old(table).wf(),
        ensures
            final(table).wf(),
            old(table).live(self@) ==> final(table)@ == old(table)@.update(
                self@,
                (SessionView { event_blocking: status, ..old(table)@[self@] }),
            ),
            !old(table).live(self@) ==> final(table)@ == old(table)@,
    {
        if self.inner < table.sessions.len() && table.sessions[self.inner].registered {
            let sess = &mut table.sessions[self.inner];
            sess.event_blocking = status;
            proof {
                assert(table@ =~= old(table)@.update(
                    self@,
                    (SessionView { event_blocking: status, ..old(table)@[self@] }),
                ));
            }
        }
    }

    /// Submit a script for asynchronous execution, without waiting for any
    /// response: it is recorded, in order, for a session that is live and
    /// shown. For any other handle the call changes nothing.
    pub fn run(&self, table: &mut WindowTable, script: &str)
        requires
            old(table).wf(),
            !has_nul_char(script@),
        ensures
            final(table).wf(),
            old(table).shown(self@) ==> final(table)@ == old(table)@.update(
                self@,
                (SessionView {
                    scripts: old(table)@[self@].scripts.push(script@),
                    ..old(table)@[self@]
                }),
            ),
            !old(table).shown(self@) ==> final(table)@ == old(table)@,
    {
        if self.inner < table.sessions.len() && table.sessions[self.inner].registered
            && table.sessions[self.inner].shown {
            let sess = &mut table.sessions[self.inner];
            sess.scripts.push(script.to_owned());
            proof {
                assert(table@[self@].scripts =~= old(table)@[self@].scripts.push(script@));
                assert(table@ =~= old(table)@.update(
                    self@,
                    (SessionView {
                        scripts: old(table)@[self@].scripts.push(script@),
                        ..old(table)@[self@]
                    }),
                ));
            }
        }
    }
}

/// Two fresh registrations in a row hand out two distinct identifiers: a
/// fresh identifier is never a registered one, and the first identifier is
/// registered by the time the second is chosen.
pub proof fn lemma_fresh_ids_distinct(
    t0: Seq<SessionView>,
    t1: Seq<SessionView>,
    t2: Seq<SessionView>,
    id1: int,
    id2: int,
)
    requires
        registers_fresh(t0, t1, id1),
        registers_fresh(t1, t2, id2),
    ensures
        id1 != id2,
{
    assert(t1[id1].registered);
}

/// A freshly registered identifier — whether requested explicitly or handed
/// out — is not shown before any show call.
pub proof fn lemma_fresh_registration_not_shown(
    pre: Seq<SessionView>,
    post: Seq<SessionView>,
    id: int,
)
    requires
        0 <= id < pre.len(),
        post == pre.update(id, fresh_session()),
    ensures
        !shown_at(post, id),
{
}

/// A destroyed identifier is inert: straight after destroy it is neither
/// registered nor shown, so the shown query answers false and — as every
/// operation's contract states for a handle that is not live — further
/// configuration calls leave the table unchanged.
pub proof fn lemma_destroyed_inert(pre: Seq<SessionView>, post: Seq<SessionView>, id: int)
    requires
        0 <= id < pre.len(),
        post == pre.update(id, vacant()),
    ensures
        !live_at(post, id),
        !shown_at(post, id),
{
}

} // verus!
