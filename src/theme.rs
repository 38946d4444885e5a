use vstd::prelude::*;

verus! {

/// The colour scheme of the dashboard.
#[derive(Debug, Clone, Copy, PartialEq, Eq, Structural)]
pub enum Theme {
    Dark,
    Light,
}

impl Default for Theme {
    fn default() -> (r: Self)
        ensures
            r == Theme::Dark,
    {
        Theme::Dark
    }
}

/// The terminal colours a theme uses.
#[derive(Debug, Clone, Copy, PartialEq, Eq, Structural)]
pub enum Color {
    Reset,
    Black,
    White,
    Gray,
    DarkGray,
    Red,
    Yellow,
    Blue,
    LightBlue,
    Cyan,
    Magenta,
}

/// The colour of each role in the interface.
#[derive(Debug, Clone, Copy, PartialEq, Eq, Structural)]
pub struct ThemeColors {
    pub background: Color,
    pub text: Color,
    pub accent: Color,
    pub highlight: Color,
    pub border: Color,
    pub selected: Color,
    pub warning: Color,
}

/// The palette of each theme.
pub open spec fn theme_palette(t: Theme) -> ThemeColors {
    match t {
        Theme::Dark => ThemeColors {
            background: Color::Black,
            text: Color::White,
            accent: Color::Cyan,
            highlight: Color::Blue,
            border: Color::Gray,
            selected: Color::Yellow,
            warning: Color::Red,
        },
        Theme::Light => ThemeColors {
            background: Color::White,
            text: Color::Black,
            accent: Color::Blue,
            highlight: Color::LightBlue,
            border: Color::DarkGray,
            selected: Color::Magenta,
            warning: Color::Red,
        },
    }
}

impl Theme {
    pub fn get_colors(&self) -> (r: ThemeColors)
        ensures
            r == theme_palette(*self),
    {
        match self {
            Theme::Dark => ThemeColors {
                background: Color::Black,
                text: Color::White,
                accent: Color::Cyan,
                highlight: Color::Blue,
                border: Color::Gray,
                selected: Color::Yellow,
                warning: Color::Red,
            },
            Theme::Light => ThemeColors {
                background: Color::White,
                text: Color::Black,
                accent: Color::Blue,
                highlight: Color::LightBlue,
                border: Color::DarkGray,
                selected: Color::Magenta,
                warning: Color::Red,
            },
        }
    }
}

/// Index of the last theme in the selection list (dark, then light).
pub const LAST_THEME_INDEX: usize = 1;

/// The theme at a position of the selection list; positions past the end
/// select the last theme.
pub open spec fn theme_at(i: usize) -> Theme {
    if i == 0 {
        Theme::Dark
    } else {
        Theme::Light
    }
}

/// The active theme and the cursor of the theme selection list.
pub struct ThemeManager {
    pub current_theme: Theme,
    pub selected_theme_index: usize,
}

impl Default for ThemeManager {
    fn default() -> (r: Self)
        ensures
            r.current_theme == Theme::Dark,
            r.selected_theme_index == 0,
    {
        ThemeManager { current_theme: Theme::Dark, selected_theme_index: 0 }
    }
}

impl ThemeManager {
    pub fn new() -> (r: Self)
        ensures
            r.current_theme == Theme::Dark,
            r.selected_theme_index == 0,
    {
        Self::default()
    }

    pub fn get_colors(&self) -> (r: ThemeColors)
        ensures
            r == theme_palette(self.current_theme),
    {
        self.current_theme.get_colors()
    }

    /// Moves the cursor up one theme, stopping at the first.
    pub fn previous_theme(&mut self)
        ensures
            final(self).selected_theme_index == if old(self).selected_theme_index > 0 {
                (old(self).selected_theme_index - 1) as usize
            } else {
                0
            },
            final(self).current_theme == old(self).current_theme,
    {
        if self.selected_theme_index > 0 {
            self.selected_theme_index = self.selected_theme_index - 1;
        }
    }

    /// Moves the cursor down one theme, stopping at the last.
    pub fn next_theme(&mut self)
        ensures
            final(self).selected_theme_index == if old(self).selected_theme_index < LAST_THEME_INDEX {
                (old(self).selected_theme_index + 1) as usize
            } else {
                old(self).selected_theme_index
            },
            final(self).current_theme == old(self).current_theme,
    {
        if self.selected_theme_index < LAST_THEME_INDEX {
            self.selected_theme_index = self.selected_theme_index + 1;
        }
    }

    /// Makes the theme under the cursor the active one.
    pub fn select_theme(&mut self)
        ensures
            final(self).current_theme == theme_at(old(self).selected_theme_index),
            final(self).selected_theme_index == old(self).selected_theme_index,
    {
        self.current_theme = if self.selected_theme_index == 0 {
            Theme::Dark
        } else {
            Theme::Light
        };
    }

    /// Puts the cursor on the active theme.
    pub fn set_selected_index_from_theme(&mut self)
        ensures
            final(self).selected_theme_index == match old(self).current_theme {
                Theme::Dark => 0usize,
                Theme::Light => 1usize,
            },
            final(self).current_theme == old(self).current_theme,
    {
        self.selected_theme_index = match self.current_theme {
            Theme::Dark => 0,
            Theme::Light => 1,
        };
    }
}

} // verus!
