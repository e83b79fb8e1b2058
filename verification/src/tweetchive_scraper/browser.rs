//! Logging a scraping account in through a remote-controlled browser.
//!
//! The login connects to the browser (through the account's proxy when it
//! has one, which must be known), clears its cookies, opens the login page
//! and waits for it, types the user name, presses the last "next" button
//! (there must be one), waits for the password field, types the password,
//! pauses, presses the login button, waits for the home page, reads the
//! cookies, and clears them again. Any failed command ends the login.

use crate::tweetchive_scraper::config::Account;
use vstd::prelude::*;
use vstd::string::*;

verus! {

/// Where the remote-controlled browser listens.
pub const BROWSER_LOCATION: &'static str = "localhost:4444";

/// The login page.
pub const TWITTER_LOGIN: &'static str = "https://twitter.com/i/flow/login";

/// The page a successful login leads to.
pub const TWITTER_HOME: &'static str = "https://twitter.com/home";

/// The browser's start page.
pub const HOME: &'static str = "about:home";

/// The user name field.
pub const USERNAME_SELECT: &'static str = "input[type=\"username\"]";

/// The password field.
pub const PASSWORD_SELECT: &'static str = "input[type=\"password\"]";

/// The buttons that lead on.
pub const NEXT_SELECT: &'static str = "div[role=\"button\"][tabindex=\"0\"]";

/// The login button.
pub const LOGIN_SELECT: &'static str = "div[role=\"button\"][tabindex=\"0\"][testid=\"LoginForm_Login_Button\"]";

/// How long to wait for a page or a field, in seconds.
pub const MAX_WAIT_SECS: u64 = 10;

/// How long to pause before pressing the login button, in milliseconds.
pub const LOGIN_PAUSE_MILLIS: u64 = 100;

/// The browser's user agent.
pub const USER_AGENT: &'static str = "Mozilla/5.0 (Windows NT 10.0; Win64; x64) AppleWebKit/537.36 (KHTML, like Gecko) Chrome/108.0.0.0 Safari/537.36";

/// Where a login stands: the command it waits on.
#[derive(Clone, Copy, Debug, PartialEq, Eq, Structural)]
pub enum LoginStage {
    Proxy,
    Connect,
    ClearCookies,
    OpenLogin,
    AwaitLogin,
    FindUsername,
    ClickUsername,
    TypeUsername,
    FindNext,
    ClickNext,
    AwaitPassword,
    ClickPassword,
    TypePassword,
    Pause,
    FindLogin,
    ClickLogin,
    AwaitHome,
    ReadCookies,
    ClearCookiesAfter,
    Finished,
    Failed,
}

/// What the caller is asked to do next.
pub enum LoginAction {
    /// Look up the known proxy with this address.
    LookUpProxy(String),
    /// Connect to the browser, setting its proxy autoconfiguration address
    /// when one is given.
    Connect(Option<String>),
    DeleteCookies,
    Goto(String),
    /// Wait, at most `MAX_WAIT_SECS`, for the browser to be at the address.
    WaitForUrl(String),
    /// Find the element that the CSS selector matches.
    Find(String),
    /// Click the element found last.
    ClickFound,
    /// Type the text into the element found last.
    TypeIntoFound(String),
    /// Find all elements that the CSS selector matches.
    FindAll(String),
    /// Click the element at this position among those found last.
    ClickFoundAt(u64),
    /// Wait, at most `MAX_WAIT_SECS`, for an element that the selector
    /// matches, and keep it as the element found last.
    WaitForElement(String),
    /// Pause for so many milliseconds.
    Sleep(u64),
    GetCookies,
    /// The login succeeded; its cookies are read.
    Finish,
    /// The login failed, for the given reason when the login itself found
    /// it.
    Abort(Option<String>),
}

pub enum LoginActionView {
    LookUpProxy(Seq<char>),
    Connect(Option<Seq<char>>),
    DeleteCookies,
    Goto(Seq<char>),
    WaitForUrl(Seq<char>),
    Find(Seq<char>),
    ClickFound,
    TypeIntoFound(Seq<char>),
    FindAll(Seq<char>),
    ClickFoundAt(u64),
    WaitForElement(Seq<char>),
    Sleep(u64),
    GetCookies,
    Finish,
    Abort(Option<Seq<char>>),
}

impl LoginAction {
    pub open spec fn view(&self) -> LoginActionView {
        match self {
            LoginAction::LookUpProxy(ip) => LoginActionView::LookUpProxy(ip@),
            LoginAction::Connect(pac) => LoginActionView::Connect(
                match pac {
                    Some(p) => Some(p@),
                    None => None,
                },
            ),
            LoginAction::DeleteCookies => LoginActionView::DeleteCookies,
            LoginAction::Goto(u) => LoginActionView::Goto(u@),
            LoginAction::WaitForUrl(u) => LoginActionView::WaitForUrl(u@),
            LoginAction::Find(s) => LoginActionView::Find(s@),
            LoginAction::ClickFound => LoginActionView::ClickFound,
            LoginAction::TypeIntoFound(t) => LoginActionView::TypeIntoFound(t@),
            LoginAction::FindAll(s) => LoginActionView::FindAll(s@),
            LoginAction::ClickFoundAt(i) => LoginActionView::ClickFoundAt(*i),
            LoginAction::WaitForElement(s) => LoginActionView::WaitForElement(s@),
            LoginAction::Sleep(ms) => LoginActionView::Sleep(*ms),
            LoginAction::GetCookies => LoginActionView::GetCookies,
            LoginAction::Finish => LoginActionView::Finish,
            LoginAction::Abort(m) => LoginActionView::Abort(
                match m {
                    Some(t) => Some(t@),
                    None => None,
                },
            ),
        }
    }
}

/// What became of the last command: it was done, it failed, the proxy
/// lookup found a proxy with this autoconfiguration address (or none), the
/// search found so many elements, or these cookies were read.
pub enum LoginEvent {
    Done,
    Failed,
    ProxyFound(Option<String>),
    FoundMany(u64),
    Cookies(Vec<(String, String)>),
}

/// A login between two commands.
pub struct Login {
    pub stage: LoginStage,
    pub username: String,
    pub password: String,
    pub cookies: Vec<(String, String)>,
}

/// The order of the stages.
pub open spec fn stage_index(s: LoginStage) -> nat {
    match s {
        LoginStage::Proxy => 0,
        LoginStage::Connect => 1,
        LoginStage::ClearCookies => 2,
        LoginStage::OpenLogin => 3,
        LoginStage::AwaitLogin => 4,
        LoginStage::FindUsername => 5,
        LoginStage::ClickUsername => 6,
        LoginStage::TypeUsername => 7,
        LoginStage::FindNext => 8,
        LoginStage::ClickNext => 9,
        LoginStage::AwaitPassword => 10,
        LoginStage::ClickPassword => 11,
        LoginStage::TypePassword => 12,
        LoginStage::Pause => 13,
        LoginStage::FindLogin => 14,
        LoginStage::ClickLogin => 15,
        LoginStage::AwaitHome => 16,
        LoginStage::ReadCookies => 17,
        LoginStage::ClearCookiesAfter => 18,
        LoginStage::Finished => 19,
        LoginStage::Failed => 20,
    }
}

/// The stage and command that follow a command done in stage `s`, for the
/// stages whose command has no result.
pub open spec fn after_done(s: LoginStage, username: Seq<char>, password: Seq<char>) -> (
    LoginStage,
    LoginActionView,
) {
    match s {
        LoginStage::Connect => (LoginStage::ClearCookies, LoginActionView::DeleteCookies),
        LoginStage::ClearCookies => (LoginStage::OpenLogin, LoginActionView::Goto(TWITTER_LOGIN@)),
        LoginStage::OpenLogin => (LoginStage::AwaitLogin, LoginActionView::WaitForUrl(TWITTER_LOGIN@)),
        LoginStage::AwaitLogin => (LoginStage::FindUsername, LoginActionView::Find(USERNAME_SELECT@)),
        LoginStage::FindUsername => (LoginStage::ClickUsername, LoginActionView::ClickFound),
        LoginStage::ClickUsername => (LoginStage::TypeUsername, LoginActionView::TypeIntoFound(username)),
        LoginStage::TypeUsername => (LoginStage::FindNext, LoginActionView::FindAll(NEXT_SELECT@)),
        LoginStage::ClickNext => (
            LoginStage::AwaitPassword,
            LoginActionView::WaitForElement(PASSWORD_SELECT@),
        ),
        LoginStage::AwaitPassword => (LoginStage::ClickPassword, LoginActionView::ClickFound),
        LoginStage::ClickPassword => (LoginStage::TypePassword, LoginActionView::TypeIntoFound(password)),
        LoginStage::TypePassword => (LoginStage::Pause, LoginActionView::Sleep(LOGIN_PAUSE_MILLIS)),
        LoginStage::Pause => (LoginStage::FindLogin, LoginActionView::Find(LOGIN_SELECT@)),
        LoginStage::FindLogin => (LoginStage::ClickLogin, LoginActionView::ClickFound),
        LoginStage::ClickLogin => (LoginStage::AwaitHome, LoginActionView::WaitForUrl(TWITTER_HOME@)),
        LoginStage::AwaitHome => (LoginStage::ReadCookies, LoginActionView::GetCookies),
        LoginStage::ClearCookiesAfter => (LoginStage::Finished, LoginActionView::Finish),
        _ => (LoginStage::Failed, LoginActionView::Abort(None)),
    }
}

/// A login as the specification sees it.
pub struct LoginState {
    pub stage: LoginStage,
    pub username: Seq<char>,
    pub password: Seq<char>,
    pub cookies: Seq<(String, String)>,
}

/// One step of a login on what became of its last command. An event that
/// does not answer that command fails the login.
pub open spec fn login_step(s: LoginState, e: LoginEvent) -> (LoginState, LoginActionView) {
    match s.stage {
        LoginStage::Finished => (s, LoginActionView::Finish),
        LoginStage::Failed => (s, LoginActionView::Abort(None)),
        LoginStage::Proxy => match e {
            LoginEvent::ProxyFound(Some(pac)) => (
                LoginState { stage: LoginStage::Connect, ..s },
                LoginActionView::Connect(Some(pac@)),
            ),
            LoginEvent::ProxyFound(None) => (
                LoginState { stage: LoginStage::Failed, ..s },
                LoginActionView::Abort(Some("no proxy"@)),
            ),
            _ => (LoginState { stage: LoginStage::Failed, ..s }, LoginActionView::Abort(None)),
        },
        LoginStage::FindNext => match e {
            LoginEvent::FoundMany(n) => if n == 0 {
                (
                    LoginState { stage: LoginStage::Failed, ..s },
                    LoginActionView::Abort(Some("no next button"@)),
                )
            } else {
                (
                    LoginState { stage: LoginStage::ClickNext, ..s },
                    LoginActionView::ClickFoundAt((n - 1) as u64),
                )
            },
            _ => (LoginState { stage: LoginStage::Failed, ..s }, LoginActionView::Abort(None)),
        },
        LoginStage::ReadCookies => match e {
            LoginEvent::Cookies(c) => (
                LoginState { stage: LoginStage::ClearCookiesAfter, cookies: c@, ..s },
                LoginActionView::DeleteCookies,
            ),
            _ => (LoginState { stage: LoginStage::Failed, ..s }, LoginActionView::Abort(None)),
        },
        _ => match e {
            LoginEvent::Done => {
                let (next, action) = after_done(s.stage, s.username, s.password);
                (LoginState { stage: next, ..s }, action)
            },
            _ => (LoginState { stage: LoginStage::Failed, ..s }, LoginActionView::Abort(None)),
        },
    }
}

/// A login always ends: each step of a login that has not ended moves it
/// to a later stage, whatever the event; at most twenty steps are taken.
pub proof fn lemma_login_progress(s: LoginState, e: LoginEvent)
    requires
        s.stage != LoginStage::Finished,
        s.stage != LoginStage::Failed,
    ensures
        stage_index(login_step(s, e).0.stage) > stage_index(s.stage),
        stage_index(login_step(s, e).0.stage) <= 20,
{
}

/// The cookies a login hands back were read on the home page: a login only
/// finishes from clearing the cookies it read, which it only reaches from
/// reading them after the home page appeared.
pub proof fn lemma_login_finishes_after_home(s: LoginState, e: LoginEvent)
    requires
        login_step(s, e).0.stage == LoginStage::Finished,
        s.stage != LoginStage::Finished,
    ensures
        s.stage == LoginStage::ClearCookiesAfter,
        login_step(s, e).0.cookies == s.cookies,
{
}

/// A failed command fails a login that has not ended, whatever the stage.
pub proof fn lemma_login_failure_fails(s: LoginState)
    requires
        s.stage != LoginStage::Finished,
        s.stage != LoginStage::Failed,
    ensures
        login_step(s, LoginEvent::Failed).0.stage == LoginStage::Failed,
        login_step(s, LoginEvent::Failed).1 is Abort,
{
}

/// Cookies are only read once the home page appeared: a login asks for
/// the cookies only from waiting for the home page, on that wait's success.
pub proof fn lemma_cookies_only_after_home(s: LoginState, e: LoginEvent)
    requires
        s.stage != LoginStage::Finished,
        login_step(s, e).0.stage == LoginStage::ReadCookies || login_step(s, e).1 == LoginActionView::GetCookies,
    ensures
        s.stage == LoginStage::AwaitHome,
        e is Done,
        login_step(s, e).0.stage == LoginStage::ReadCookies,
{
}

impl Login {
    pub open spec fn state(&self) -> LoginState {
        LoginState {
            stage: self.stage,
            username: self.username@,
            password: self.password@,
            cookies: self.cookies@,
        }
    }

    /// Starts the login of `account`: with the lookup of its proxy when it
    /// has one, with the connection to the browser otherwise.
    pub fn new(account: &Account) -> (r: (Login, LoginAction))
        ensures
            r.0.username@ == account.username@,
            r.0.password@ == account.password@,
            r.0.cookies@.len() == 0,
            account.assigned_proxy matches Some(p) ==> r.0.stage == LoginStage::Proxy && r.1@
                == LoginActionView::LookUpProxy(p.ip@),
            account.assigned_proxy is None ==> r.0.stage == LoginStage::Connect && r.1@
                == LoginActionView::Connect(None),
    {
        let login = Login {
            stage: LoginStage::Connect,
            username: account.username.clone(),
            password: account.password.clone(),
            cookies: Vec::new(),
        };
        match &account.assigned_proxy {
            Some(p) => (Login { stage: LoginStage::Proxy, ..login }, LoginAction::LookUpProxy(p.ip.clone())),
            None => (login, LoginAction::Connect(None)),
        }
    }

    fn done(&mut self) -> (a: LoginAction)
        ensures
            final(self).username == old(self).username,
            final(self).password == old(self).password,
            final(self).cookies == old(self).cookies,
            (final(self).stage, a@) == after_done(old(self).stage, old(self).username@, old(self).password@),
    {
        let (next, action) = match self.stage {
            LoginStage::Connect => (LoginStage::ClearCookies, LoginAction::DeleteCookies),
            LoginStage::ClearCookies => (
                LoginStage::OpenLogin,
                LoginAction::Goto(String::from_str(TWITTER_LOGIN)),
            ),
            LoginStage::OpenLogin => (
                LoginStage::AwaitLogin,
                LoginAction::WaitForUrl(String::from_str(TWITTER_LOGIN)),
            ),
            LoginStage::AwaitLogin => (
                LoginStage::FindUsername,
                LoginAction::Find(String::from_str(USERNAME_SELECT)),
            ),
            LoginStage::FindUsername => (LoginStage::ClickUsername, LoginAction::ClickFound),
            LoginStage::ClickUsername => (
                LoginStage::TypeUsername,
                LoginAction::TypeIntoFound(self.username.clone()),
            ),
            LoginStage::TypeUsername => (
                LoginStage::FindNext,
                LoginAction::FindAll(String::from_str(NEXT_SELECT)),
            ),
            LoginStage::ClickNext => (
                LoginStage::AwaitPassword,
                LoginAction::WaitForElement(String::from_str(PASSWORD_SELECT)),
            ),
            LoginStage::AwaitPassword => (LoginStage::ClickPassword, LoginAction::ClickFound),
            LoginStage::ClickPassword => (
                LoginStage::TypePassword,
                LoginAction::TypeIntoFound(self.password.clone()),
            ),
            LoginStage::TypePassword => (LoginStage::Pause, LoginAction::Sleep(LOGIN_PAUSE_MILLIS)),
            LoginStage::Pause => (LoginStage::FindLogin, LoginAction::Find(String::from_str(LOGIN_SELECT))),
            LoginStage::FindLogin => (LoginStage::ClickLogin, LoginAction::ClickFound),
            LoginStage::ClickLogin => (
                LoginStage::AwaitHome,
                LoginAction::WaitForUrl(String::from_str(TWITTER_HOME)),
            ),
            LoginStage::AwaitHome => (LoginStage::ReadCookies, LoginAction::GetCookies),
            LoginStage::ClearCookiesAfter => (LoginStage::Finished, LoginAction::Finish),
            _ => (LoginStage::Failed, LoginAction::Abort(None)),
        };
        self.stage = next;
        action
    }

    fn fail(&mut self, reason: Option<String>) -> (a: LoginAction)
        ensures
            final(self).username == old(self).username,
            final(self).password == old(self).password,
            final(self).cookies == old(self).cookies,
            final(self).stage == LoginStage::Failed,
            a == LoginAction::Abort(reason),
    {
        self.stage = LoginStage::Failed;
        LoginAction::Abort(reason)
    }

    /// Takes in what became of the last command and says what to do next.
    pub fn step(&mut self, e: LoginEvent) -> (a: LoginAction)
        ensures
            (final(self).state(), a@) == login_step(old(self).state(), e),
    {
        match self.stage {
            LoginStage::Finished => LoginAction::Finish,
            LoginStage::Failed => LoginAction::Abort(None),
            LoginStage::Proxy => match e {
                LoginEvent::ProxyFound(Some(pac)) => {
                    self.stage = LoginStage::Connect;
                    LoginAction::Connect(Some(pac))
                },
                LoginEvent::ProxyFound(None) => self.fail(Some(String::from_str("no proxy"))),
                _ => self.fail(None),
            },
            LoginStage::FindNext => match e {
                LoginEvent::FoundMany(n) => {
                    if n == 0 {
                        self.fail(Some(String::from_str("no next button")))
                    } else {
                        self.stage = LoginStage::ClickNext;
                        LoginAction::ClickFoundAt(n - 1)
                    }
                },
                _ => self.fail(None),
            },
            LoginStage::ReadCookies => match e {
                LoginEvent::Cookies(c) => {
                    self.cookies = c;
                    self.stage = LoginStage::ClearCookiesAfter;
                    LoginAction::DeleteCookies
                },
                _ => self.fail(None),
            },
            _ => match e {
                LoginEvent::Done => self.done(),
                _ => self.fail(None),
            },
        }
    }

    /// The cookies of a finished login.
    pub fn into_cookies(self) -> (c: Vec<(String, String)>)
        ensures
            c@ == self.cookies@,
    {
        self.cookies
    }
}

} // verus!
