//! Notifications: how the clock tells the user that a countdown is over.

use std::io::Write;
use vstd::prelude::*;

use crate::color::chars_of;
use crate::ui::push_char;

verus! {

/// Something that can show the user a notification.
///
/// A notifier that [`shows`](Notifier::shows) its notifications adds each
/// one to those it [`sent`](Notifier::sent), in order; one that does not
/// leaves them as they were.
pub trait Notifier: core::fmt::Debug + Send + Sync {
    /// Whether the notifier shows the notifications it is asked to show.
    spec fn shows(&self) -> bool;

    /// The notifications the notifier has shown, title and body, in order.
    spec fn sent(&self) -> Seq<(Seq<char>, Seq<char>)>;

    /// Shows a notification with a title and a body.
    fn send_notification(&mut self, title: &str, body: &str)
        ensures
            final(self).shows() == old(self).shows(),
            final(self).sent() == if old(self).shows() {
                old(self).sent().push((title@, body@))
            } else {
                old(self).sent()
            },
    ;
}

/// A character as written inside a double-quoted AppleScript string: a
/// backslash, a double quote and a backtick get a backslash before them,
/// and a line break is written `\n`.
pub open spec fn applescript_char(c: char) -> Seq<char> {
    if c == '\\' {
        seq!['\\', '\\']
    } else if c == '"' {
        seq!['\\', '"']
    } else if c == '`' {
        seq!['\\', '`']
    } else if c == '\n' {
        seq!['\\', 'n']
    } else {
        seq![c]
    }
}

/// A text as written inside a double-quoted AppleScript string.
pub open spec fn applescript_escape(s: Seq<char>) -> Seq<char>
    decreases s.len(),
{
    if s.len() == 0 {
        Seq::empty()
    } else {
        applescript_escape(s.drop_last()) + applescript_char(s.last())
    }
}

/// The AppleScript that shows a notification with a title and a body.
pub open spec fn notification_script_spec(title: Seq<char>, body: Seq<char>) -> Seq<char> {
    "display notification \""@ + applescript_escape(body) + "\" with title \""@
        + applescript_escape(title) + "\""@
}

/// Appends `s` as written inside a double-quoted AppleScript string.
fn push_applescript_escaped(out: &mut String, s: &str)
    ensures
        final(out)@ == old(out)@ + applescript_escape(s@),
{
    let v = chars_of(s);
    let ghost start = out@;
    let mut i: usize = 0;
    while i < v.len()
        invariant
            i <= v@.len(),
            v@ == s@,
            out@ == start + applescript_escape(v@.take(i as int)),
        decreases v.len() - i,
    {
        let c = v[i];
        if c == '\\' || c == '"' || c == '`' {
            push_char(out, '\\');
            push_char(out, c);
        } else if c == '\n' {
            push_char(out, '\\');
            push_char(out, 'n');
        } else {
            push_char(out, c);
        }
        proof {
            let next = v@.take(i + 1);
            assert(next.drop_last() =~= v@.take(i as int));
            assert(next.last() == c);
            assert(out@ =~= start + applescript_escape(next));
        }
        i = i + 1;
    }
    assert(v@.take(v.len() as int) =~= v@);
}

/// The AppleScript that shows a notification with a title and a body, the
/// way the clock shows its notifications on macOS.
pub fn notification_script(title: &str, body: &str) -> (script: String)
    ensures
        script@ == notification_script_spec(title@, body@),
{
    let mut script = String::from_str("display notification \"");
    push_applescript_escaped(&mut script, body);
    script.append("\" with title \"");
    push_applescript_escaped(&mut script, title);
    script.append("\"");
    script
}

/// The requests for desktop notifications that the clock has made:
/// application name, summary and body of each, in order. The record is
/// ghost state: it exists for the proofs alone, and only
/// [`show_desktop_notification`] adds to it.
pub struct DesktopLog {
    requests: Ghost<Seq<(Seq<char>, Seq<char>, Seq<char>)>>,
}

impl View for DesktopLog {
    type V = Seq<(Seq<char>, Seq<char>, Seq<char>)>;

    closed spec fn view(&self) -> Seq<(Seq<char>, Seq<char>, Seq<char>)> {
        self.requests@
    }
}

impl DesktopLog {
    /// A record of no requests.
    pub fn new() -> (log: Self)
        ensures
            log@ == Seq::<(Seq<char>, Seq<char>, Seq<char>)>::empty(),
    {
        DesktopLog { requests: Ghost(Seq::empty()) }
    }
}

/// Asks the desktop to show a notification.
///
/// Calls `notify_rust::Notification::new()`, sets the application name,
/// the summary and the body to the arguments, and calls `show`, which
/// hands one request with them to the desktop's notification service;
/// where that fails, a line saying so goes to standard error and the call
/// returns as usual. The contract states that one request with these three
/// values was made. Whether the desktop shows it depends on the machine
/// and is not stated.
#[verifier::external_body]
fn show_desktop_notification(log: &mut DesktopLog, app_name: &str, summary: &str, body: &str)
    ensures
        final(log)@ == old(log)@.push((app_name@, summary@, body@)),
{
    let shown = notify_rust::Notification::new().appname(app_name).summary(summary).body(body).show();
    if let Err(e) = shown {
        let _ = writeln!(std::io::stderr(), "Failed to send notification: {}", e);
    }
}

/// The application name under which the clock's notifications appear.
pub open spec fn app_name() -> Seq<char> {
    "DeskClock"@
}

/// Notifications on the desktop, under the clock's name.
pub struct SystemNotifier {
    enabled: bool,
    desktop: DesktopLog,
}

/// The formatter that `Debug` writes to.
#[verifier::external_type_specification]
#[verifier::external_body]
pub struct ExFormatter<'a>(core::fmt::Formatter<'a>);

/// The error of a formatter.
#[verifier::external_type_specification]
#[verifier::external_body]
pub struct ExFmtError(core::fmt::Error);

impl core::fmt::Debug for SystemNotifier {
    /// Writes the notifier as `SystemNotifier { enabled: .. }`.
    #[verifier::external_body]
    fn fmt(&self, f: &mut core::fmt::Formatter<'_>) -> core::fmt::Result {
        write!(f, "SystemNotifier {{ enabled: {} }}", self.enabled)
    }
}

impl SystemNotifier {
    /// An enabled notifier that has made no request yet.
    pub fn new() -> (n: Self)
        ensures
            n.is_enabled(),
            n.requests() == Seq::<(Seq<char>, Seq<char>, Seq<char>)>::empty(),
    {
        Self { enabled: true, desktop: DesktopLog::new() }
    }

    /// Whether the notifier shows its notifications.
    pub closed spec fn is_enabled(&self) -> bool {
        self.enabled
    }

    /// The requests the notifier has made to the desktop, in order:
    /// application name, summary and body.
    pub closed spec fn requests(&self) -> Seq<(Seq<char>, Seq<char>, Seq<char>)> {
        self.desktop@
    }
}

/// Title and body of a request to the desktop.
pub open spec fn request_notice(r: (Seq<char>, Seq<char>, Seq<char>)) -> (Seq<char>, Seq<char>) {
    (r.1, r.2)
}

impl Notifier for SystemNotifier {
    open spec fn shows(&self) -> bool {
        self.is_enabled()
    }

    open spec fn sent(&self) -> Seq<(Seq<char>, Seq<char>)> {
        self.requests().map_values(|r: (Seq<char>, Seq<char>, Seq<char>)| request_notice(r))
    }

    /// Where the notifier is enabled, asks the desktop to show the
    /// notification under the name "DeskClock", with the title as its
    /// summary; otherwise does nothing.
    fn send_notification(&mut self, title: &str, body: &str)
        ensures
            final(self).is_enabled() == old(self).is_enabled(),
            final(self).requests() == if old(self).is_enabled() {
                old(self).requests().push((app_name(), title@, body@))
            } else {
                old(self).requests()
            },
    {
        if !self.enabled {
            return;
        }
        let ghost before = self.desktop@;
        let name = "DeskClock";
        proof {
            reveal_strlit("DeskClock");
        }
        show_desktop_notification(&mut self.desktop, name, title, body);
        assert(self.requests().map_values(|r: (Seq<char>, Seq<char>, Seq<char>)| request_notice(r))
            =~= before.map_values(|r: (Seq<char>, Seq<char>, Seq<char>)| request_notice(r)).push(
            (title@, body@),
        ));
    }
}

/// A notifier that only records what it was asked to show, in order.
#[derive(Debug)]
pub struct MockNotifier {
    pub notified: Vec<(String, String)>,
}

impl MockNotifier {
    /// A notifier that has recorded nothing.
    pub fn new() -> (n: Self)
        ensures
            n.notified.deep_view() == Seq::<(Seq<char>, Seq<char>)>::empty(),
    {
        Self { notified: Vec::new() }
    }

    /// Forgets every recorded notification.
    pub fn clear(&mut self)
        ensures
            final(self).notified.deep_view() == Seq::<(Seq<char>, Seq<char>)>::empty(),
    {
        self.notified.clear();
        assert(self.notified.deep_view() =~= Seq::<(Seq<char>, Seq<char>)>::empty());
    }

    /// The title and body of the last recorded notification, if any.
    pub fn last_notification(&self) -> (r: Option<(&str, &str)>)
        ensures
            match r {
                Some((t, b)) => self.notified@.len() > 0 && (t@, b@) == self.notified.deep_view().last(),
                None => self.notified@.len() == 0,
            },
    {
        let n = self.notified.len();
        if n == 0 {
            None
        } else {
            let last = &self.notified[n - 1];
            Some((last.0.as_str(), last.1.as_str()))
        }
    }

    /// How many notifications are recorded.
    pub fn count(&self) -> (c: usize)
        ensures
            c == self.notified@.len(),
    {
        self.notified.len()
    }
}

impl Notifier for MockNotifier {
    open spec fn shows(&self) -> bool {
        true
    }

    open spec fn sent(&self) -> Seq<(Seq<char>, Seq<char>)> {
        self.notified.deep_view()
    }

    /// Records the notification after those recorded before.
    fn send_notification(&mut self, title: &str, body: &str)
        ensures
            final(self).notified.deep_view() == old(self).notified.deep_view().push((title@, body@)),
    {
        let ghost before = self.notified.deep_view();
        self.notified.push((title.to_owned(), body.to_owned()));
        assert(self.notified.deep_view() =~= before.push((title@, body@)));
    }
}

} // verus!
