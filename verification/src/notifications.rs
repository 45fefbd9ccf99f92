use vstd::prelude::*;
use vstd::string::*;
use crate::text::owned;

verus! {

/// How much a notification matters.
#[derive(Clone, Copy, Debug, PartialEq, Eq, Structural)]
pub enum UserNotifyKind {
    Info,
    Success,
    Warning,
    Error,
}

/// The color role a piece of notification text is drawn with.
#[derive(Clone, Copy, Debug, PartialEq, Eq, Structural)]
pub enum Tone {
    /// The default text color.
    Plain,
    Info,
    Strong,
    Warning,
    Error,
}

/// The icon shown beside a notification.
#[derive(Clone, Copy, Debug, PartialEq, Eq, Structural)]
pub enum Glyph {
    Info,
    Warning,
    SealWarning,
}

/// How long a notification stays on screen unless set otherwise (ms).
pub const DEFAULT_DURATION_MS: u64 = 3500;
/// How long an error notification stays on screen (ms).
pub const ERROR_DURATION_MS: u64 = 5000;
/// How long a short notification stays on screen (ms).
pub const SHORT_DURATION_MS: u64 = 1500;

/// A message for the user, shown in the notification list and optionally
/// as a toast. `duration` is in milliseconds.
#[derive(Clone, Debug)]
pub struct UserNotification {
    pub kind: UserNotifyKind,
    pub message: String,
    pub duration: Option<u64>,
    pub progress: bool,
    pub closable: bool,
    pub toast: bool,
}

/// The lower-case name of a kind.
pub open spec fn kind_text(k: UserNotifyKind) -> Seq<char> {
    match k {
        UserNotifyKind::Info => "info"@,
        UserNotifyKind::Success => "success"@,
        UserNotifyKind::Warning => "warning"@,
        UserNotifyKind::Error => "error"@,
    }
}

/// The upper-case name of a kind.
pub open spec fn kind_label(k: UserNotifyKind) -> Seq<char> {
    match k {
        UserNotifyKind::Info => "INFO"@,
        UserNotifyKind::Success => "SUCCESS"@,
        UserNotifyKind::Warning => "WARNING"@,
        UserNotifyKind::Error => "ERROR"@,
    }
}

/// The icon and color of a notification of the given kind.
pub open spec fn icon_of(k: UserNotifyKind) -> (Glyph, Tone) {
    match k {
        UserNotifyKind::Info => (Glyph::Info, Tone::Info),
        UserNotifyKind::Success => (Glyph::Info, Tone::Strong),
        UserNotifyKind::Warning => (Glyph::Warning, Tone::Warning),
        UserNotifyKind::Error => (Glyph::SealWarning, Tone::Error),
    }
}

/// The color the text of a notification of the given kind is drawn with.
pub open spec fn text_tone(k: UserNotifyKind) -> Tone {
    match k {
        UserNotifyKind::Warning => Tone::Warning,
        UserNotifyKind::Error => Tone::Error,
        _ => Tone::Plain,
    }
}

impl UserNotifyKind {
    /// The lower-case name of the kind (`info`, `success`, ...).
    pub fn to_string(&self) -> (r: String)
        ensures
            r@ == kind_text(*self),
    {
        match self {
            UserNotifyKind::Info => owned("info"),
            UserNotifyKind::Success => owned("success"),
            UserNotifyKind::Warning => owned("warning"),
            UserNotifyKind::Error => owned("error"),
        }
    }

    /// The upper-case name of the kind (`INFO`, `SUCCESS`, ...).
    pub fn label(&self) -> (r: &'static str)
        ensures
            r@ == kind_label(*self),
    {
        match self {
            UserNotifyKind::Info => "INFO",
            UserNotifyKind::Success => "SUCCESS",
            UserNotifyKind::Warning => "WARNING",
            UserNotifyKind::Error => "ERROR",
        }
    }
}

impl Default for UserNotification {
    fn default() -> (r: Self)
        ensures
            r.kind == UserNotifyKind::Info,
            r.message@ == Seq::<char>::empty(),
            r.duration == Some(DEFAULT_DURATION_MS),
            r.progress,
            !r.closable,
            !r.toast,
    {
        UserNotification {
            kind: UserNotifyKind::Info,
            message: String::new(),
            duration: Some(DEFAULT_DURATION_MS),
            progress: true,
            closable: false,
            toast: false,
        }
    }
}

/// A fresh notification: the given kind and text, shown for the default
/// duration with a progress bar, not closable, not a toast.
pub open spec fn is_fresh(r: UserNotification, kind: UserNotifyKind, text: Seq<char>) -> bool {
    &&& r.kind == kind
    &&& r.message@ == text
    &&& r.duration == Some(DEFAULT_DURATION_MS)
    &&& r.progress
    &&& !r.closable
    &&& !r.toast
}

impl UserNotification {
    /// A notification of the given kind and text with default settings.
    pub fn new(kind: UserNotifyKind, text: String) -> (r: Self)
        ensures
            is_fresh(r, kind, text@),
    {
        UserNotification {
            kind,
            message: text,
            duration: Some(DEFAULT_DURATION_MS),
            progress: true,
            closable: false,
            toast: false,
        }
    }

    /// The same notification, marked to be shown as a toast.
    pub fn as_toast(self) -> (r: Self)
        ensures
            r == (UserNotification { toast: true, ..self }),
    {
        let mut this = self;
        this.toast = true;
        this
    }

    /// Whether the notification is shown as a toast.
    pub fn is_toast(&self) -> (r: bool)
        ensures
            r == self.toast,
    {
        self.toast
    }

    /// An informational notification.
    pub fn info(text: String) -> (r: Self)
        ensures
            is_fresh(r, UserNotifyKind::Info, text@),
    {
        Self::new(UserNotifyKind::Info, text)
    }

    /// A warning notification.
    pub fn warning(text: String) -> (r: Self)
        ensures
            is_fresh(r, UserNotifyKind::Warning, text@),
    {
        Self::new(UserNotifyKind::Warning, text)
    }

    /// An error notification, shown longer than the others.
    pub fn error(text: String) -> (r: Self)
        ensures
            r.kind == UserNotifyKind::Error,
            r.message@ == text@,
            r.duration == Some(ERROR_DURATION_MS),
            r.progress,
            !r.closable,
            !r.toast,
    {
        Self::new(UserNotifyKind::Error, text).duration(ERROR_DURATION_MS)
    }

    /// A success notification.
    pub fn success(text: String) -> (r: Self)
        ensures
            is_fresh(r, UserNotifyKind::Success, text@),
    {
        Self::new(UserNotifyKind::Success, text)
    }

    /// The same notification, shown for `millis` milliseconds.
    pub fn duration(self, millis: u64) -> (r: Self)
        ensures
            r == (UserNotification { duration: Some(millis), ..self }),
    {
        let mut this = self;
        this.duration = Some(millis);
        this
    }

    /// The same notification, shown for a short time.
    pub fn short(self) -> (r: Self)
        ensures
            r == (UserNotification { duration: Some(SHORT_DURATION_MS), ..self }),
    {
        let mut this = self;
        this.duration = Some(SHORT_DURATION_MS);
        this
    }

    /// The icon of the notification and its color.
    pub fn icon(&self) -> (r: (Glyph, Tone))
        ensures
            r == icon_of(self.kind),
    {
        match self.kind {
            UserNotifyKind::Info => (Glyph::Info, Tone::Info),
            UserNotifyKind::Success => (Glyph::Info, Tone::Strong),
            UserNotifyKind::Warning => (Glyph::Warning, Tone::Warning),
            UserNotifyKind::Error => (Glyph::SealWarning, Tone::Error),
        }
    }

    /// The text of the notification and the color it is drawn with.
    pub fn text(&self) -> (r: (String, Tone))
        ensures
            r.0@ == self.message@,
            r.1 == text_tone(self.kind),
    {
        let tone = match self.kind {
            UserNotifyKind::Warning => Tone::Warning,
            UserNotifyKind::Error => Tone::Error,
            _ => Tone::Plain,
        };
        (self.message.clone(), tone)
    }
}

/// The line a notification is copied to the clipboard as: `[KIND] message`.
pub open spec fn clipboard_line(n: UserNotification) -> Seq<char> {
    "["@ + kind_label(n.kind) + "] "@ + n.message@
}

/// The clipboard lines of the notifications, joined by new lines.
pub open spec fn clipboard_lines(ns: Seq<UserNotification>) -> Seq<char>
    decreases ns.len(),
{
    if ns.len() == 0 {
        Seq::empty()
    } else if ns.len() == 1 {
        clipboard_line(ns[0])
    } else {
        clipboard_lines(ns.drop_last()) + "\n"@ + clipboard_line(ns.last())
    }
}

/// The notification list of the status bar.
pub struct Notifications {
    pub notifications: Vec<UserNotification>,
    pub last_notification: usize,
    pub errors: bool,
    pub warnings: bool,
    pub infos: bool,
}

/// What the list of notifications is, as plain values.
pub struct NotificationsView {
    pub notifications: Seq<UserNotification>,
    pub last_notification: nat,
    pub errors: bool,
    pub warnings: bool,
    pub infos: bool,
}

impl View for Notifications {
    type V = NotificationsView;

    open spec fn view(&self) -> NotificationsView {
        NotificationsView {
            notifications: self.notifications@,
            last_notification: self.last_notification as nat,
            errors: self.errors,
            warnings: self.warnings,
            infos: self.infos,
        }
    }
}

/// Whether some notification of the sequence has the given kind.
pub open spec fn has_kind(ns: Seq<UserNotification>, k: UserNotifyKind) -> bool {
    exists|i: int| 0 <= i < ns.len() && #[trigger] ns[i].kind == k
}

impl NotificationsView {
    /// The list after `n` is added.
    pub open spec fn pushed(self, n: UserNotification) -> NotificationsView {
        NotificationsView {
            notifications: self.notifications.push(n),
            errors: self.errors || n.kind == UserNotifyKind::Error,
            warnings: self.warnings || n.kind == UserNotifyKind::Warning,
            infos: self.infos || n.kind == UserNotifyKind::Info,
            ..self
        }
    }

    /// The list after it is cleared: empty, every flag down, the count
    /// the popup last saw kept.
    pub open spec fn cleared(self) -> NotificationsView {
        NotificationsView {
            notifications: Seq::empty(),
            errors: false,
            warnings: false,
            infos: false,
            ..self
        }
    }

    /// The flags tell whether an error, a warning or an informational
    /// notification is in the list.
    pub open spec fn flags_match(self) -> bool {
        &&& self.errors == has_kind(self.notifications, UserNotifyKind::Error)
        &&& self.warnings == has_kind(self.notifications, UserNotifyKind::Warning)
        &&& self.infos == has_kind(self.notifications, UserNotifyKind::Info)
    }

    /// The status-bar icon: the most severe kind in the list decides.
    pub open spec fn indicator(self) -> (Glyph, Tone) {
        if self.errors {
            (Glyph::SealWarning, Tone::Error)
        } else if self.warnings {
            (Glyph::Warning, Tone::Warning)
        } else if self.infos {
            (Glyph::Info, Tone::Info)
        } else {
            (Glyph::Info, Tone::Plain)
        }
    }
}

impl Default for Notifications {
    fn default() -> (r: Self)
        ensures
            r@.notifications == Seq::<UserNotification>::empty(),
            r@.last_notification == 0,
            !r@.errors && !r@.warnings && !r@.infos,
    {
        Notifications {
            notifications: Vec::new(),
            last_notification: 0,
            errors: false,
            warnings: false,
            infos: false,
        }
    }
}

impl Notifications {
    /// An empty list.
    pub fn new() -> (r: Self)
        ensures
            r@.notifications == Seq::<UserNotification>::empty(),
            r@.last_notification == 0,
            !r@.errors && !r@.warnings && !r@.infos,
    {
        Notifications {
            notifications: Vec::new(),
            last_notification: 0,
            errors: false,
            warnings: false,
            infos: false,
        }
    }

    /// Removes every notification and lowers the flags.
    pub fn clear(&mut self)
        ensures
            final(self)@ == old(self)@.cleared(),
    {
        self.notifications.clear();
        self.errors = false;
        self.warnings = false;
        self.infos = false;
    }

    /// Whether the list holds a notification.
    pub fn has_some(&self) -> (r: bool)
        ensures
            r == (self@.notifications.len() > 0),
    {
        self.notifications.len() > 0
    }

    /// Adds a notification at the end and raises the flag of its kind.
    pub fn push(&mut self, notification: UserNotification)
        ensures
            final(self)@ == old(self)@.pushed(notification),
    {
        if notification.kind == UserNotifyKind::Error {
            self.errors = true;
        } else if notification.kind == UserNotifyKind::Warning {
            self.warnings = true;
        } else if notification.kind == UserNotifyKind::Info {
            self.infos = true;
        }
        self.notifications.push(notification);
    }

    /// Whether the popup should open because the number of notifications
    /// changed since it last looked; the current number is remembered.
    pub fn take_popup_request(&mut self) -> (r: bool)
        ensures
            r == (old(self)@.notifications.len() != old(self)@.last_notification),
            final(self)@ == (NotificationsView {
                last_notification: old(self)@.notifications.len(),
                ..old(self)@
            }),
    {
        if self.notifications.len() != self.last_notification {
            self.last_notification = self.notifications.len();
            true
        } else {
            false
        }
    }

    /// The status-bar icon and its color.
    pub fn indicator(&self) -> (r: (Glyph, Tone))
        ensures
            r == self@.indicator(),
    {
        if self.errors {
            (Glyph::SealWarning, Tone::Error)
        } else if self.warnings {
            (Glyph::Warning, Tone::Warning)
        } else if self.infos {
            (Glyph::Info, Tone::Info)
        } else {
            (Glyph::Info, Tone::Plain)
        }
    }

    /// The notifications as text for the clipboard, one `[KIND] message`
    /// line each.
    pub fn clipboard_text(&self) -> (r: String)
        ensures
            r@ == clipboard_lines(self@.notifications),
    {
        let mut out = String::new();
        let n = self.notifications.len();
        let mut i: usize = 0;
        while i < n
            invariant
                n == self.notifications@.len(),
                i <= n,
                out@ == clipboard_lines(self.notifications@.take(i as int)),
            decreases n - i,
        {
            let item = &self.notifications[i];
            if i > 0 {
                out.append("\n");
            }
            out.append("[");
            out.append(item.kind.label());
            out.append("] ");
            out.append(item.message.as_str());
            proof {
                let s = self.notifications@.take(i + 1);
                assert(s.drop_last() =~= self.notifications@.take(i as int));
                assert(s.last() == self.notifications@[i as int]);
                if i == 0 {
                    assert(out@ =~= clipboard_line(self.notifications@[0]));
                } else {
                    assert(out@ =~= clipboard_lines(s.drop_last()) + "\n"@ + clipboard_line(s.last()));
                }
            }
            i = i + 1;
        }
        assert(self.notifications@.take(n as int) =~= self.notifications@);
        out
    }
}

/// Adding a notification keeps the flags in step with the contents.
pub proof fn lemma_push_keeps_flags(v: NotificationsView, n: UserNotification)
    requires
        v.flags_match(),
    ensures
        v.pushed(n).flags_match(),
        v.pushed(n).notifications.len() > 0,
        v.pushed(n).notifications.last() == n,
        forall|i: int| 0 <= i < v.notifications.len() ==> v.pushed(n).notifications[i] == v.notifications[i],
{
    let w = v.pushed(n);
    let last = v.notifications.len() as int;
    assert(w.notifications[last] == n);
    assert forall|k: UserNotifyKind| has_kind(w.notifications, k) == (has_kind(v.notifications, k) || n.kind == k) by {
        if has_kind(w.notifications, k) {
            let i = choose|i: int| 0 <= i < w.notifications.len() && #[trigger] w.notifications[i].kind == k;
            if i < last {
                assert(v.notifications[i].kind == k);
            }
        }
        if has_kind(v.notifications, k) {
            let i = choose|i: int| 0 <= i < v.notifications.len() && #[trigger] v.notifications[i].kind == k;
            assert(w.notifications[i].kind == k);
        }
    }
}

/// Clearing empties the list, keeps the flags in step, and shows the
/// plain icon.
pub proof fn lemma_clear_resets(v: NotificationsView)
    ensures
        v.cleared().flags_match(),
        v.cleared().notifications.len() == 0,
        v.cleared().indicator() == (Glyph::Info, Tone::Plain),
{
}

/// Once an error is in the list (and the flags are in step), the icon is
/// the error icon, whatever else is added.
pub proof fn lemma_error_dominates(v: NotificationsView, n: UserNotification)
    requires
        v.flags_match(),
        has_kind(v.notifications, UserNotifyKind::Error),
    ensures
        v.pushed(n).indicator() == (Glyph::SealWarning, Tone::Error),
{
}

} // verus!
