//! Rectangles on the screen and the sizes and places of the popups.

use vstd::prelude::*;
use crate::app::LogLevel;
use crate::forms::FormType;

verus! {

/// Width and height of the calendar popup.
pub const CALENDAR_WIDTH: u16 = 24;

pub const CALENDAR_HEIGHT: u16 = 10;

/// Height of the error popup, and the bounds of its width.
pub const ERROR_POPUP_HEIGHT: u16 = 7;

pub const ERROR_POPUP_MIN_WIDTH: u16 = 30;

pub const ERROR_POPUP_MAX_WIDTH: u16 = 60;

/// Size of the dialog that asks for confirmation.
pub const CONFIRM_WIDTH: u16 = 45;

pub const CONFIRM_HEIGHT: u16 = 10;

/// Size of the help overlay.
pub const HELP_WIDTH: u16 = 60;

pub const HELP_HEIGHT: u16 = 29;

/// Rows that the border takes from the log area.
pub const LOG_BORDER_ROWS: u16 = 2;

/// A rectangle of the screen, in character cells.
#[derive(Debug, Clone, Copy, PartialEq, Eq, Structural)]
pub struct Rect {
    pub x: u16,
    pub y: u16,
    pub width: u16,
    pub height: u16,
}

impl Rect {
    /// A rectangle lies on the screen when its right and lower edge can
    /// be counted in 16 bits.
    pub open spec fn wf(self) -> bool {
        self.x + self.width <= u16::MAX && self.y + self.height <= u16::MAX
    }

    /// Whether `inner` lies within `self`.
    pub open spec fn contains(self, inner: Rect) -> bool {
        self.x <= inner.x && inner.x + inner.width <= self.x + self.width && self.y <= inner.y
            && inner.y + inner.height <= self.y + self.height
    }

    /// The rectangle at `(x, y)` of the given size, cut down where it
    /// would reach past what 16 bits can count.
    pub open spec fn spec_new(x: u16, y: u16, width: u16, height: u16) -> Rect {
        Rect {
            x,
            y,
            width: if x + width > u16::MAX {
                (u16::MAX - x) as u16
            } else {
                width
            },
            height: if y + height > u16::MAX {
                (u16::MAX - y) as u16
            } else {
                height
            },
        }
    }

    pub fn new(x: u16, y: u16, width: u16, height: u16) -> (rect: Rect)
        ensures
            rect == Self::spec_new(x, y, width, height),
            rect.wf(),
    {
        Rect {
            x,
            y,
            width: if width > u16::MAX - x {
                u16::MAX - x
            } else {
                width
            },
            height: if height > u16::MAX - y {
                u16::MAX - y
            } else {
                height
            },
        }
    }
}

/// The rectangle of the given size in the middle of `area`, or filling
/// `area` in a direction in which `area` is the smaller.
pub open spec fn centered(width: u16, height: u16, area: Rect) -> Rect {
    Rect {
        x: (area.x + (if area.width > width {
            (area.width - width) / 2
        } else {
            0
        })) as u16,
        y: (area.y + (if area.height > height {
            (area.height - height) / 2
        } else {
            0
        })) as u16,
        width: if width < area.width {
            width
        } else {
            area.width
        },
        height: if height < area.height {
            height
        } else {
            area.height
        },
    }
}

/// A rectangle of the given size, centered in `area`.
pub fn centered_rect(width: u16, height: u16, area: Rect) -> (rect: Rect)
    requires
        area.wf(),
    ensures
        rect == centered(width, height, area),
        rect.wf(),
        area.contains(rect),
{
    let dx: u16 = if area.width > width {
        (area.width - width) / 2
    } else {
        0
    };
    let dy: u16 = if area.height > height {
        (area.height - height) / 2
    } else {
        0
    };
    Rect {
        x: area.x + dx,
        y: area.y + dy,
        width: if width < area.width {
            width
        } else {
            area.width
        },
        height: if height < area.height {
            height
        } else {
            area.height
        },
    }
}

/// The width of the error popup on a screen `screen_width` wide: six
/// tenths of the screen, but at least 30 and at most 60 columns.
pub open spec fn error_popup_width(screen_width: u16) -> int {
    let share = screen_width * 60 / 100;
    if share > ERROR_POPUP_MAX_WIDTH {
        ERROR_POPUP_MAX_WIDTH as int
    } else if share < ERROR_POPUP_MIN_WIDTH {
        ERROR_POPUP_MIN_WIDTH as int
    } else {
        share
    }
}

/// The place of the error popup on the screen.
pub fn error_popup_area(area: Rect) -> (rect: Rect)
    requires
        area.wf(),
    ensures
        rect == centered(error_popup_width(area.width) as u16, ERROR_POPUP_HEIGHT, area),
        area.contains(rect),
{
    let share: u32 = area.width as u32 * 60 / 100;
    let width: u16 = if share > ERROR_POPUP_MAX_WIDTH as u32 {
        ERROR_POPUP_MAX_WIDTH
    } else if share < ERROR_POPUP_MIN_WIDTH as u32 {
        ERROR_POPUP_MIN_WIDTH
    } else {
        share as u16
    };
    centered_rect(width, ERROR_POPUP_HEIGHT, area)
}

impl FormType {
    /// Width and height of the popup that shows a form of this type.
    pub open spec fn spec_popup_size(self) -> (u16, u16) {
        match self {
            FormType::CreateClient => (50, 12),
            FormType::EditClient(_) => (50, 12),
            FormType::CreateProject => (55, 22),
            FormType::EditProject(_) => (55, 22),
            FormType::CreateUser => (50, 18),
            FormType::EditUser(_) => (50, 18),
        }
    }

    pub open spec fn spec_title(self) -> &'static str {
        match self {
            FormType::CreateClient => " New Client ",
            FormType::EditClient(_) => " Edit Client ",
            FormType::CreateProject => " New Project ",
            FormType::EditProject(_) => " Edit Project ",
            FormType::CreateUser => " New User ",
            FormType::EditUser(_) => " Edit User ",
        }
    }

    pub fn popup_size(&self) -> (size: (u16, u16))
        ensures
            size == self.spec_popup_size(),
    {
        match self {
            FormType::CreateClient | FormType::EditClient(_) => (50, 12),
            FormType::CreateProject | FormType::EditProject(_) => (55, 22),
            FormType::CreateUser | FormType::EditUser(_) => (50, 18),
        }
    }

    /// The title of the popup.
    pub fn title(&self) -> (title: &'static str)
        ensures
            title == self.spec_title(),
    {
        match self {
            FormType::CreateClient => " New Client ",
            FormType::EditClient(_) => " Edit Client ",
            FormType::CreateProject => " New Project ",
            FormType::EditProject(_) => " Edit Project ",
            FormType::CreateUser => " New User ",
            FormType::EditUser(_) => " Edit User ",
        }
    }
}

/// The place of the calendar popup beside a form: to the right of the
/// form where the screen has room, else to its left, else in the middle
/// of the screen; two rows below the top of the form, but not so low
/// that it would leave the screen.
pub open spec fn calendar_place(screen: Rect, form: Rect) -> Rect {
    let x: int = if form.x + form.width + CALENDAR_WIDTH + 2 < screen.width {
        form.x + form.width + 1
    } else if form.x >= CALENDAR_WIDTH + 2 {
        form.x - CALENDAR_WIDTH - 1
    } else if screen.width > CALENDAR_WIDTH {
        (screen.width - CALENDAR_WIDTH) / 2
    } else {
        0
    };
    let lowest: int = if screen.height > CALENDAR_HEIGHT {
        screen.height - CALENDAR_HEIGHT
    } else {
        0
    };
    let y: int = if form.y + 2 < lowest {
        form.y + 2
    } else {
        lowest
    };
    Rect::spec_new(x as u16, y as u16, CALENDAR_WIDTH, CALENDAR_HEIGHT)
}

/// Where the calendar popup goes.
pub fn calendar_area(screen: Rect, form: Rect) -> (rect: Rect)
    requires
        form.wf(),
    ensures
        rect == calendar_place(screen, form),
        rect.wf(),
{
    let right: u32 = form.x as u32 + form.width as u32;
    let x: u16 = if right + CALENDAR_WIDTH as u32 + 2 < screen.width as u32 {
        (right + 1) as u16
    } else if form.x >= CALENDAR_WIDTH + 2 {
        form.x - CALENDAR_WIDTH - 1
    } else if screen.width > CALENDAR_WIDTH {
        (screen.width - CALENDAR_WIDTH) / 2
    } else {
        0
    };
    let lowest: u16 = if screen.height > CALENDAR_HEIGHT {
        screen.height - CALENDAR_HEIGHT
    } else {
        0
    };
    let y: u16 = if (form.y as u32) + 2 < lowest as u32 {
        form.y + 2
    } else {
        lowest
    };
    Rect::new(x, y, CALENDAR_WIDTH, CALENDAR_HEIGHT)
}

/// Log entries that fit in a log area `height` rows high, out of `count`;
/// the newest are shown, newest first.
pub fn visible_log_count(count: usize, height: u16) -> (shown: usize)
    ensures
        shown == (if height <= LOG_BORDER_ROWS {
            0
        } else if count <= height - LOG_BORDER_ROWS {
            count as int
        } else {
            height - LOG_BORDER_ROWS
        }),
        shown <= count,
{
    let rows: usize = if height > LOG_BORDER_ROWS {
        (height - LOG_BORDER_ROWS) as usize
    } else {
        0
    };
    if count <= rows {
        count
    } else {
        rows
    }
}

impl LogLevel {
    pub open spec fn spec_prefix(self) -> char {
        match self {
            LogLevel::Info => 'i',
            LogLevel::Success => '+',
            LogLevel::Warning => '!',
            LogLevel::Error => 'x',
        }
    }

    /// The sign with which entries of this level begin.
    pub fn prefix(&self) -> (sign: char)
        ensures
            sign == self.spec_prefix(),
    {
        match self {
            LogLevel::Info => 'i',
            LogLevel::Success => '+',
            LogLevel::Warning => '!',
            LogLevel::Error => 'x',
        }
    }
}

} // verus!
