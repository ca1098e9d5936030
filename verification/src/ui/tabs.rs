//! The tabs of the interface.

use vstd::prelude::*;
use crate::app_options::AppOptions;

verus! {

/// The tab that is shown.
#[derive(Clone, Copy, Debug, PartialEq, Eq, Structural)]
pub enum SelectedTab {
    /// The typing test, from its start screen to its summary.
    Tab1,
    /// The options.
    Tab2,
    /// The account.
    Tab3,
    /// About the program.
    Tab4,
}

impl SelectedTab {
    /// How many tabs there are.
    pub const COUNT: usize = 4;

    /// The place of the tab in the row of tabs.
    pub open spec fn ordinal(self) -> nat {
        match self {
            SelectedTab::Tab1 => 0,
            SelectedTab::Tab2 => 1,
            SelectedTab::Tab3 => 2,
            SelectedTab::Tab4 => 3,
        }
    }

    /// The name of the tab.
    pub open spec fn label(self) -> Seq<char> {
        match self {
            SelectedTab::Tab1 => "Tab 1"@,
            SelectedTab::Tab2 => "Tab 2"@,
            SelectedTab::Tab3 => "Tab 3"@,
            SelectedTab::Tab4 => "Tab 4"@,
        }
    }

    /// What the tab is headed with.
    pub open spec fn heading(self) -> Seq<char> {
        match self {
            SelectedTab::Tab1 => "Typing Test"@,
            SelectedTab::Tab2 => "Options"@,
            SelectedTab::Tab3 => "Account"@,
            SelectedTab::Tab4 => "About"@,
        }
    }

    /// The tab after this one, wrapping around.
    pub open spec fn next_in_order(self) -> SelectedTab {
        match self {
            SelectedTab::Tab1 => SelectedTab::Tab2,
            SelectedTab::Tab2 => SelectedTab::Tab3,
            SelectedTab::Tab3 => SelectedTab::Tab4,
            SelectedTab::Tab4 => SelectedTab::Tab1,
        }
    }

    /// The tab before this one, wrapping around.
    pub open spec fn previous_in_order(self) -> SelectedTab {
        match self {
            SelectedTab::Tab1 => SelectedTab::Tab4,
            SelectedTab::Tab2 => SelectedTab::Tab1,
            SelectedTab::Tab3 => SelectedTab::Tab2,
            SelectedTab::Tab4 => SelectedTab::Tab3,
        }
    }

    /// The place of the tab in the row of tabs.
    pub fn index(self) -> (i: usize)
        ensures
            i == self.ordinal(),
            i < SelectedTab::COUNT,
    {
        match self {
            SelectedTab::Tab1 => 0,
            SelectedTab::Tab2 => 1,
            SelectedTab::Tab3 => 2,
            SelectedTab::Tab4 => 3,
        }
    }

    /// The tab at place `index`, if there is one.
    pub fn from_repr(index: usize) -> (r: Option<SelectedTab>)
        ensures
            r is Some <==> index < SelectedTab::COUNT,
            r matches Some(tab) ==> tab.ordinal() == index,
    {
        match index {
            0 => Some(SelectedTab::Tab1),
            1 => Some(SelectedTab::Tab2),
            2 => Some(SelectedTab::Tab3),
            3 => Some(SelectedTab::Tab4),
            _ => None,
        }
    }

    /// Every tab, from left to right.
    pub fn all() -> (all: Vec<SelectedTab>)
        ensures
            all@.len() == SelectedTab::COUNT,
            forall|i: int| 0 <= i < all@.len() ==> (#[trigger] all@[i]).ordinal() == i,
    {
        vec![SelectedTab::Tab1, SelectedTab::Tab2, SelectedTab::Tab3, SelectedTab::Tab4]
    }

    /// The tab to the left; the last one to the left of the first.
    pub fn previous(self) -> (r: SelectedTab)
        ensures
            r.ordinal() == (self.ordinal() + SelectedTab::COUNT - 1) % (SelectedTab::COUNT as int),
            r == self.previous_in_order(),
            r.next_in_order() == self,
    {
        match self {
            SelectedTab::Tab1 => SelectedTab::Tab4,
            SelectedTab::Tab2 => SelectedTab::Tab1,
            SelectedTab::Tab3 => SelectedTab::Tab2,
            SelectedTab::Tab4 => SelectedTab::Tab3,
        }
    }

    /// The tab to the right; the first one to the right of the last.
    pub fn next(self) -> (r: SelectedTab)
        ensures
            r.ordinal() == (self.ordinal() + 1) % (SelectedTab::COUNT as nat),
            r == self.next_in_order(),
            r.previous_in_order() == self,
    {
        match self {
            SelectedTab::Tab1 => SelectedTab::Tab2,
            SelectedTab::Tab2 => SelectedTab::Tab3,
            SelectedTab::Tab3 => SelectedTab::Tab4,
            SelectedTab::Tab4 => SelectedTab::Tab1,
        }
    }

    /// The name of the tab.
    pub fn to_string(&self) -> (s: String)
        ensures
            s@ == self.label(),
    {
        match self {
            SelectedTab::Tab1 => "Tab 1".to_owned(),
            SelectedTab::Tab2 => "Tab 2".to_owned(),
            SelectedTab::Tab3 => "Tab 3".to_owned(),
            SelectedTab::Tab4 => "Tab 4".to_owned(),
        }
    }

    /// What the tab is headed with.
    pub fn title(&self) -> (s: String)
        ensures
            s@ == self.heading(),
    {
        match self {
            SelectedTab::Tab1 => "Typing Test".to_owned(),
            SelectedTab::Tab2 => "Options".to_owned(),
            SelectedTab::Tab3 => "Account".to_owned(),
            SelectedTab::Tab4 => "About".to_owned(),
        }
    }
}

impl Default for SelectedTab {
    fn default() -> (r: SelectedTab)
        ensures
            r == SelectedTab::Tab1,
    {
        SelectedTab::Tab1
    }
}

/// How a switch is shown.
pub open spec fn switch_label(on: bool) -> Seq<char> {
    if on {
        "enabled"@
    } else {
        "disabled"@
    }
}

/// The lines of the options tab, from top to bottom.
pub open spec fn options_lines(options: AppOptions) -> Seq<Seq<char>> {
    seq![
        "Test Language: "@ + options.test_language.label(),
        "Test Type: "@ + options.test_type.label(),
        "Timed Race: "@ + switch_label(options.time_race_enabled),
        "Hardcore: "@ + switch_label(options.hardcore_enabled),
        "(WIP) UI Language: "@ + options.ui_language.label(),
    ]
}

/// How a switch is shown.
pub fn switch_text(on: bool) -> (s: &'static str)
    ensures
        s@ == switch_label(on),
{
    if on {
        "enabled"
    } else {
        "disabled"
    }
}

/// The lines of the options tab, from top to bottom: one for each option,
/// with its name and what it is set to.
pub fn options_content(options: &AppOptions) -> (lines: Vec<String>)
    ensures
        lines.deep_view() == options_lines(*options),
{
    let mut test_language = "Test Language: ".to_owned();
    test_language.append(options.test_language.to_string().as_str());
    let mut test_type = "Test Type: ".to_owned();
    test_type.append(options.test_type.to_string().as_str());
    let mut time_race = "Timed Race: ".to_owned();
    time_race.append(switch_text(options.time_race_enabled));
    let mut hardcore = "Hardcore: ".to_owned();
    hardcore.append(switch_text(options.hardcore_enabled));
    let mut ui_language = "(WIP) UI Language: ".to_owned();
    ui_language.append(options.ui_language.to_string().as_str());
    let lines = vec![test_language, test_type, time_race, hardcore, ui_language];
    assert(lines.deep_view() =~= options_lines(*options));
    lines
}

/// The headings of the tabs, from left to right.
pub fn tab_titles() -> (titles: Vec<String>)
    ensures
        titles@.len() == SelectedTab::COUNT,
        forall|i: int|
            0 <= i < titles@.len() ==> exists|tab: SelectedTab|
                tab.ordinal() == i && (#[trigger] titles@[i])@ == tab.heading(),
{
    let titles = vec![
        SelectedTab::Tab1.title(),
        SelectedTab::Tab2.title(),
        SelectedTab::Tab3.title(),
        SelectedTab::Tab4.title(),
    ];
    assert(SelectedTab::Tab1.ordinal() == 0 && titles@[0]@ == SelectedTab::Tab1.heading());
    assert(SelectedTab::Tab2.ordinal() == 1 && titles@[1]@ == SelectedTab::Tab2.heading());
    assert(SelectedTab::Tab3.ordinal() == 2 && titles@[2]@ == SelectedTab::Tab3.heading());
    assert(SelectedTab::Tab4.ordinal() == 3 && titles@[3]@ == SelectedTab::Tab4.heading());
    titles
}

} // verus!
