//! The application state and the one function through which a frame changes it.

use vstd::prelude::*;
use crate::record::{
    stored_record_loads_back, stored_view, ApplicationRecord, RecordView, StoredRecord, StoredView,
};
use crate::session::{logout_is_idempotent, SessionState, SessionView, SECRET};

verus! {

/// The status line of a closed session.
pub const LOGGED_OUT_STATUS: &'static str = "Logged Out.";

/// What follows the username in the status line of an open session.
pub const LOGGED_IN_SUFFIX: &'static str = " is Logged In.";

/// The banner that a release build shows.
pub const RELEASE_BANNER: &'static str = "** Release Build **";

/// What the user did in a frame, as the host reports it.
#[derive(Debug, Clone, PartialEq, Eq)]
pub enum Event {
    /// This text was typed into the username field of the login form.
    SetUsername(String),
    /// This text was typed into the password field of the login form.
    SetPassword(String),
    /// The label field now holds this text.
    SetLabel(String),
    /// The value is now the number with this bit pattern.
    SetValue(u32),
    /// The login button was pressed.
    SubmitCredentials,
    /// Logout was chosen from the menu.
    Logout,
    /// Quit was chosen from the menu.
    Quit,
}

/// What the host has to do after an event.
#[derive(Debug, Clone, Copy, PartialEq, Eq)]
pub enum Action {
    /// Go on with the frame.
    Continue,
    /// Close the application at the end of the frame.
    Quit,
}

/// The application state as contracts see it.
#[verifier::ext_equal]
pub struct AppView {
    pub record: RecordView,
    pub session: SessionView,
}

impl AppView {
    /// The state at startup: the record that `stored` restores, and a closed
    /// session with an empty password field.
    pub open spec fn start(stored: Option<StoredView>) -> AppView {
        AppView { record: RecordView::load(stored), session: SessionView::initial() }
    }

    /// What is stored of this state: its record, and nothing of the session.
    pub open spec fn saved(self) -> StoredView {
        self.record.save()
    }

    /// The state after one event.
    ///
    /// The login form is offered only while nobody is logged in: with a
    /// session open, text for its username and password fields and a press of
    /// its button change nothing. The label and the value can be edited at
    /// any time.
    pub open spec fn step(self, event: Event) -> AppView {
        match event {
            Event::SetUsername(text) => if self.session.logged_in {
                self
            } else {
                AppView {
                    record: RecordView { username: text@, ..self.record },
                    session: self.session,
                }
            },
            Event::SetPassword(text) => AppView {
                record: self.record,
                session: self.session.with_password(text@),
            },
            Event::SetLabel(text) => AppView {
                record: RecordView { label: text@, ..self.record },
                session: self.session,
            },
            Event::SetValue(bits) => AppView {
                record: RecordView { value_bits: bits, ..self.record },
                session: self.session,
            },
            Event::SubmitCredentials => AppView {
                record: self.record,
                session: self.session.login(),
            },
            Event::Logout => AppView { record: self.record, session: self.session.logout() },
            Event::Quit => self,
        }
    }

    /// The text of the status line.
    pub open spec fn status(self) -> Seq<char> {
        if self.session.logged_in {
            self.record.username + LOGGED_IN_SUFFIX@
        } else {
            LOGGED_OUT_STATUS@
        }
    }
}

/// The whole state of the application: the record that is stored, and the
/// session that is not.
#[derive(Debug, Clone)]
pub struct TestApp {
    record: ApplicationRecord,
    session: SessionState,
}

impl View for TestApp {
    type V = AppView;

    closed spec fn view(&self) -> AppView {
        AppView { record: self.record@, session: self.session@ }
    }
}

impl Default for TestApp {
    /// The state of a first run: the default record, logged out.
    fn default() -> (app: TestApp)
        ensures
            app@ == AppView::start(None),
            app@.record == RecordView::default_record(),
            app@.session == SessionView::initial(),
    {
        TestApp { record: ApplicationRecord::default(), session: SessionState::new() }
    }
}

impl TestApp {
    /// The state at startup, before the first frame.
    ///
    /// The record is restored from what the host found in storage, as
    /// [`ApplicationRecord::load`] says: `None` gives the default record, and
    /// a field that the stored data lacks gets its default. The session
    /// starts closed whatever was stored.
    pub fn new(stored: Option<StoredRecord>) -> (app: TestApp)
        ensures
            app@ == AppView::start(stored_view(stored)),
            stored is None ==> app@.record == RecordView::default_record(),
            app@.session == SessionView::initial(),
    {
        TestApp { record: ApplicationRecord::load(stored), session: SessionState::new() }
    }

    /// The fields to store at shutdown: the record, and nothing of the session.
    pub fn save(&self) -> (stored: StoredRecord)
        ensures
            stored@ == self@.saved(),
    {
        self.record.save()
    }

    /// Applies one event to the state and says what the host has to do.
    ///
    /// Only `Quit` asks anything of the host, and it leaves the state alone.
    /// Whatever the event, a session that is open afterwards holds the secret
    /// in its password field.
    pub fn update(&mut self, event: Event) -> (action: Action)
        ensures
            final(self)@ == old(self)@.step(event),
            final(self)@.session.valid(),
            action == (if event is Quit {
                Action::Quit
            } else {
                Action::Continue
            }),
    {
        proof {
            use_type_invariant(&self.session);
        }
        match event {
            Event::SetUsername(text) => {
                if !self.session.logged_in() {
                    self.record.username = text;
                }
                Action::Continue
            },
            Event::SetPassword(text) => {
                self.session.set_password(text);
                Action::Continue
            },
            Event::SetLabel(text) => {
                self.record.label = text;
                Action::Continue
            },
            Event::SetValue(bits) => {
                self.record.value_bits = bits;
                Action::Continue
            },
            Event::SubmitCredentials => {
                self.session.login();
                Action::Continue
            },
            Event::Logout => {
                self.session.logout();
                Action::Continue
            },
            Event::Quit => Action::Quit,
        }
    }

    /// The record.
    pub fn record(&self) -> (record: &ApplicationRecord)
        ensures
            record@ == self@.record,
    {
        &self.record
    }

    /// The session. If it is open, its password field holds the secret.
    pub fn session(&self) -> (session: &SessionState)
        ensures
            session@ == self@.session,
            session@.valid(),
    {
        proof {
            use_type_invariant(&self.session);
        }
        &self.session
    }

    /// The text of the status line: who is logged in, or that nobody is.
    pub fn status(&self) -> (text: String)
        ensures
            text@ == self@.status(),
    {
        if self.session.logged_in() {
            self.record.username.clone().concat(LOGGED_IN_SUFFIX)
        } else {
            String::from_str(LOGGED_OUT_STATUS)
        }
    }
}

/// The banner to show in the window: `RELEASE_BANNER` in a release build, none
/// in a build with debug assertions.
pub fn yay_if_release_build(debug_assertions: bool) -> (banner: Option<&'static str>)
    ensures
        banner == (if debug_assertions {
            None
        } else {
            Some(RELEASE_BANNER)
        }),
{
    if debug_assertions {
        None
    } else {
        Some(RELEASE_BANNER)
    }
}

/// A state that is stored at shutdown and restored at the next start has the
/// record it had, and a closed session with an empty password field: the
/// password and the open session do not outlive the process.
pub proof fn restart_keeps_record_and_closes_session(app: AppView)
    ensures
        AppView::start(Some(app.saved())).record == app.record,
        AppView::start(Some(app.saved())).session == SessionView::initial(),
{
    stored_record_loads_back(app.record);
}

/// While a session is open the password field holds the secret, whatever a
/// frame brings: if that holds of a state, it holds of the state after any event.
pub proof fn open_session_holds_secret(app: AppView, event: Event)
    requires
        app.session.logged_in ==> app.session.password == SECRET@,
    ensures
        app.step(event).session.logged_in ==> app.step(event).session.password == SECRET@,
{
}

/// With a session open, nothing but logout changes the username, the password
/// or the session: the fields of the login form are out of reach.
pub proof fn open_session_changes_only_by_logout(app: AppView, event: Event)
    requires
        app.session.logged_in,
        !(event is Logout),
    ensures
        app.step(event).session == app.session,
        app.step(event).record.username == app.record.username,
{
}

/// Choosing logout twice in a row leaves the state as choosing it once does.
pub proof fn logout_twice_is_logout_once(app: AppView)
    ensures
        app.step(Event::Logout).step(Event::Logout) == app.step(Event::Logout),
{
    logout_is_idempotent(app.session);
}

} // verus!
