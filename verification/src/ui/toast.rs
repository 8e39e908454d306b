//! Toasts: short notifications that stay on screen for a while.
use vstd::prelude::*;
use crate::ui::area::{Border, Position};
use crate::ui::margin::Margin;
use crate::ui::popup::Options;
use crate::ui::style_config::StyleConfig;

verus! {

/// How urgent a notification is.
#[derive(Clone, Copy, Debug, PartialEq, Eq, Structural)]
pub enum Urgency {
    Normal,
    Success,
    Warning,
    Critical,
}

/// A notification on screen.
pub struct Toast {
    pub title: String,
    pub msg: String,
    pub urgency: Urgency,
    /// Time left on screen, in nanoseconds.
    pub duration: u128,
}

impl Clone for Toast {
    fn clone(&self) -> (r: Self)
        ensures
            r == *self,
    {
        Toast { title: self.title.clone(), msg: self.msg.clone(), urgency: self.urgency, duration: self.duration }
    }
}

/// The content of a notification.
pub struct ToastView {
    pub title: Seq<char>,
    pub msg: Seq<char>,
    pub urgency: Urgency,
    pub duration: u128,
}

impl View for Toast {
    type V = ToastView;

    open spec fn view(&self) -> ToastView {
        ToastView { title: self.title@, msg: self.msg@, urgency: self.urgency, duration: self.duration }
    }
}

/// How notifications of one urgency look and how long they stay.
pub struct UrgencyConfig {
    pub default_title: String,
    pub title_style: StyleConfig,
    pub border: Border,
    /// How long a notification stays when its request names no duration, in nanoseconds.
    pub default_duration: u128,
}

/// How notifications look, per urgency, and where they stack.
pub struct ToastConfig {
    pub normal: UrgencyConfig,
    pub success: UrgencyConfig,
    pub warning: UrgencyConfig,
    pub critical: UrgencyConfig,
    pub position: Position,
    pub margin: Margin,
}

impl ToastConfig {
    /// The settings for notifications of `urgency`.
    pub open spec fn spec_for(self, urgency: Urgency) -> UrgencyConfig {
        match urgency {
            Urgency::Normal => self.normal,
            Urgency::Success => self.success,
            Urgency::Warning => self.warning,
            Urgency::Critical => self.critical,
        }
    }

    /// The settings for notifications of `urgency`.
    pub fn for_urgency(&self, urgency: Urgency) -> (r: &UrgencyConfig)
        ensures
            *r == self.spec_for(urgency),
    {
        match urgency {
            Urgency::Normal => &self.normal,
            Urgency::Success => &self.success,
            Urgency::Warning => &self.warning,
            Urgency::Critical => &self.critical,
        }
    }
}

impl Toast {
    /// The toast made from a request: the given title or else the urgency's default title,
    /// and the given duration or else the urgency's default duration.
    pub open spec fn spec_new(
        config: ToastConfig,
        title: Option<Seq<char>>,
        msg: Seq<char>,
        urgency: Urgency,
        duration: Option<u128>,
    ) -> ToastView {
        ToastView {
            title: match title {
                Some(t) => t,
                None => config.spec_for(urgency).default_title@,
            },
            msg,
            urgency,
            duration: match duration {
                Some(d) => d,
                None => config.spec_for(urgency).default_duration,
            },
        }
    }

    /// Makes a notification; what the request leaves open comes from the urgency's settings.
    pub fn new(
        config: &ToastConfig,
        title: Option<String>,
        msg: String,
        urgency: Urgency,
        duration: Option<u128>,
    ) -> (t: Self)
        ensures
            t@ == Toast::spec_new(
                *config,
                match title {
                    Some(s) => Some(s@),
                    None => None,
                },
                msg@,
                urgency,
                duration,
            ),
    {
        let urgency_config = config.for_urgency(urgency);
        let title = match title {
            Some(t) => t,
            None => urgency_config.default_title.clone(),
        };
        let duration = match duration {
            Some(d) => d,
            None => urgency_config.default_duration,
        };
        Self { title, msg, urgency, duration }
    }
}

/// The popup box of the `index`-th toast on screen: wide enough for its message plus borders
/// and padding, four rows high, and moved down by four rows per toast above it.
pub open spec fn spec_toast_options(config: ToastConfig, index: usize, toast: Toast) -> Options {
    Options {
        width: (4 + (toast.msg@.len() as u16)) as u16,
        height: 4,
        position: config.position,
        margin: Margin {
            top: (config.margin.top + (index as u16) * 4) as u16,
            bottom: config.margin.bottom,
            left: config.margin.left,
            right: config.margin.right,
        },
    }
}

/// Where the `index`-th toast goes.
pub fn toast_options(config: &ToastConfig, index: usize, toast: &Toast) -> (o: Options)
    requires
        4 + (toast.msg@.len() as u16) <= u16::MAX,
        config.margin.top + (index as u16) * 4 <= u16::MAX,
    ensures
        o == spec_toast_options(*config, index, *toast),
{
    let count = toast.msg.as_str().unicode_len();
    #[verifier::truncate]
    let count16 = count as u16;
    #[verifier::truncate]
    let index16 = index as u16;
    Options {
        width: 4 + count16, // 4 = borders(2) + padding(2)
        height: 4, // 4 = borders(2) + title(1) + msg(1)
        position: config.position,
        margin: Margin {
            top: config.margin.top + index16 * 4,
            bottom: config.margin.bottom,
            left: config.margin.left,
            right: config.margin.right,
        },
    }
}

} // verus!
