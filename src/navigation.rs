//! Focus among panes, the modal return point, and the tab state of the
//! sidebar and of the main view.
use vstd::prelude::*;

verus! {

/// A region of the interface that can hold input focus.
#[derive(Debug, Clone, Copy, PartialEq, Eq, Structural)]
pub enum FocusedPane {
    Top,
    Sidebar,
    MainView,
    BottomBar,
    Modal,
}

impl Default for FocusedPane {
    fn default() -> (r: Self)
        ensures
            r == FocusedPane::Top,
    {
        FocusedPane::Top
    }
}

/// The pane reached by its number key (`1` to `4`).
pub open spec fn pane_of_number(number: nat) -> Option<FocusedPane> {
    if number == 1 {
        Some(FocusedPane::Top)
    } else if number == 2 {
        Some(FocusedPane::Sidebar)
    } else if number == 3 {
        Some(FocusedPane::MainView)
    } else if number == 4 {
        Some(FocusedPane::BottomBar)
    } else {
        None
    }
}

/// The next pane in the cycle Top, Sidebar, MainView, BottomBar; from the modal
/// the cycle starts again at Top.
pub open spec fn pane_after(p: FocusedPane) -> FocusedPane {
    match p {
        FocusedPane::Top => FocusedPane::Sidebar,
        FocusedPane::Sidebar => FocusedPane::MainView,
        FocusedPane::MainView => FocusedPane::BottomBar,
        _ => FocusedPane::Top,
    }
}

/// The previous pane in the cycle; from the modal, the pane it returns to.
pub open spec fn pane_before(p: FocusedPane, return_point: FocusedPane) -> FocusedPane {
    match p {
        FocusedPane::Top => FocusedPane::BottomBar,
        FocusedPane::Sidebar => FocusedPane::Top,
        FocusedPane::MainView => FocusedPane::Sidebar,
        FocusedPane::BottomBar => FocusedPane::MainView,
        FocusedPane::Modal => return_point,
    }
}

impl FocusedPane {
    pub fn from_number(number: usize) -> (r: Option<Self>)
        ensures
            r == pane_of_number(number as nat),
    {
        match number {
            1 => Some(FocusedPane::Top),
            2 => Some(FocusedPane::Sidebar),
            3 => Some(FocusedPane::MainView),
            4 => Some(FocusedPane::BottomBar),
            _ => None,
        }
    }
}

#[derive(Debug, Clone, Copy, PartialEq, Eq, Structural)]
pub enum SidebarTab {
    Addresses,
    Transactions,
}

impl Default for SidebarTab {
    fn default() -> (r: Self)
        ensures
            r == SidebarTab::Addresses,
    {
        SidebarTab::Addresses
    }
}

/// The other sidebar tab.
pub open spec fn other_tab(t: SidebarTab) -> SidebarTab {
    match t {
        SidebarTab::Addresses => SidebarTab::Transactions,
        SidebarTab::Transactions => SidebarTab::Addresses,
    }
}

impl SidebarTab {
    pub fn next(self) -> (r: Self)
        ensures
            r == other_tab(self),
    {
        match self {
            SidebarTab::Addresses => SidebarTab::Transactions,
            SidebarTab::Transactions => SidebarTab::Addresses,
        }
    }

    pub fn previous(self) -> (r: Self)
        ensures
            r == other_tab(self),
    {
        match self {
            SidebarTab::Addresses => SidebarTab::Transactions,
            SidebarTab::Transactions => SidebarTab::Addresses,
        }
    }
}

/// Whether the main view shows an address or a transaction.
#[derive(Debug, Clone, Copy, PartialEq, Eq, Structural)]
pub enum MainViewMode {
    Address,
    Transaction,
}

impl Default for MainViewMode {
    fn default() -> (r: Self)
        ensures
            r == MainViewMode::Address,
    {
        MainViewMode::Address
    }
}

#[derive(Debug, Clone, Copy, PartialEq, Eq, Structural)]
pub enum MainViewTab {
    AddressInfo,
    AddressTransactions,
    AddressInternal,
    AddressBalances,
    AddressPermissions,
    TransactionSummary,
    TransactionDebug,
    TransactionStorageDiff,
}

impl Default for MainViewTab {
    fn default() -> (r: Self)
        ensures
            r == MainViewTab::AddressInfo,
    {
        MainViewTab::AddressInfo
    }
}

/// The tabs of a mode, in display order.
pub open spec fn tabs_of(mode: MainViewMode) -> Seq<MainViewTab> {
    match mode {
        MainViewMode::Address => seq![
            MainViewTab::AddressInfo,
            MainViewTab::AddressTransactions,
            MainViewTab::AddressInternal,
            MainViewTab::AddressBalances,
            MainViewTab::AddressPermissions,
        ],
        MainViewMode::Transaction => seq![
            MainViewTab::TransactionSummary,
            MainViewTab::TransactionDebug,
            MainViewTab::TransactionStorageDiff,
        ],
    }
}

/// The mode a tab belongs to.
pub open spec fn mode_of_tab(tab: MainViewTab) -> MainViewMode {
    match tab {
        MainViewTab::AddressInfo | MainViewTab::AddressTransactions
        | MainViewTab::AddressInternal | MainViewTab::AddressBalances
        | MainViewTab::AddressPermissions => MainViewMode::Address,
        _ => MainViewMode::Transaction,
    }
}

/// The first tab of a mode, which a tab of the other mode is mapped to.
pub open spec fn default_tab(mode: MainViewMode) -> MainViewTab {
    match mode {
        MainViewMode::Address => MainViewTab::AddressInfo,
        MainViewMode::Transaction => MainViewTab::TransactionSummary,
    }
}

pub open spec fn spec_normalize(tab: MainViewTab, mode: MainViewMode) -> MainViewTab {
    if mode_of_tab(tab) == mode {
        tab
    } else {
        default_tab(mode)
    }
}

/// The tab after `tab` in the mode's list, wrapping around, after normalizing.
pub open spec fn spec_next_tab(tab: MainViewTab, mode: MainViewMode) -> MainViewTab {
    match spec_normalize(tab, mode) {
        MainViewTab::AddressInfo => MainViewTab::AddressTransactions,
        MainViewTab::AddressTransactions => MainViewTab::AddressInternal,
        MainViewTab::AddressInternal => MainViewTab::AddressBalances,
        MainViewTab::AddressBalances => MainViewTab::AddressPermissions,
        MainViewTab::AddressPermissions => MainViewTab::AddressInfo,
        MainViewTab::TransactionSummary => MainViewTab::TransactionDebug,
        MainViewTab::TransactionDebug => MainViewTab::TransactionStorageDiff,
        MainViewTab::TransactionStorageDiff => MainViewTab::TransactionSummary,
    }
}

/// The tab before `tab` in the mode's list, wrapping around, after normalizing.
pub open spec fn spec_previous_tab(tab: MainViewTab, mode: MainViewMode) -> MainViewTab {
    match spec_normalize(tab, mode) {
        MainViewTab::AddressInfo => MainViewTab::AddressPermissions,
        MainViewTab::AddressTransactions => MainViewTab::AddressInfo,
        MainViewTab::AddressInternal => MainViewTab::AddressTransactions,
        MainViewTab::AddressBalances => MainViewTab::AddressInternal,
        MainViewTab::AddressPermissions => MainViewTab::AddressBalances,
        MainViewTab::TransactionSummary => MainViewTab::TransactionStorageDiff,
        MainViewTab::TransactionDebug => MainViewTab::TransactionSummary,
        MainViewTab::TransactionStorageDiff => MainViewTab::TransactionDebug,
    }
}

impl MainViewTab {
    pub fn normalize(self, mode: MainViewMode) -> (r: Self)
        ensures
            r == spec_normalize(self, mode),
            mode_of_tab(r) == mode,
    {
        match mode {
            MainViewMode::Address => match self {
                MainViewTab::AddressInfo
                | MainViewTab::AddressTransactions
                | MainViewTab::AddressInternal
                | MainViewTab::AddressBalances
                | MainViewTab::AddressPermissions => self,
                _ => MainViewTab::AddressInfo,
            },
            MainViewMode::Transaction => match self {
                MainViewTab::TransactionSummary
                | MainViewTab::TransactionDebug
                | MainViewTab::TransactionStorageDiff => self,
                _ => MainViewTab::TransactionSummary,
            },
        }
    }

    pub fn next(self, mode: MainViewMode) -> (r: Self)
        ensures
            r == spec_next_tab(self, mode),
            mode_of_tab(r) == mode,
    {
        match mode {
            MainViewMode::Address => match self.normalize(mode) {
                MainViewTab::AddressInfo => MainViewTab::AddressTransactions,
                MainViewTab::AddressTransactions => MainViewTab::AddressInternal,
                MainViewTab::AddressInternal => MainViewTab::AddressBalances,
                MainViewTab::AddressBalances => MainViewTab::AddressPermissions,
                _ => MainViewTab::AddressInfo,
            },
            MainViewMode::Transaction => match self.normalize(mode) {
                MainViewTab::TransactionSummary => MainViewTab::TransactionDebug,
                MainViewTab::TransactionDebug => MainViewTab::TransactionStorageDiff,
                _ => MainViewTab::TransactionSummary,
            },
        }
    }

    pub fn previous(self, mode: MainViewMode) -> (r: Self)
        ensures
            r == spec_previous_tab(self, mode),
            mode_of_tab(r) == mode,
    {
        match mode {
            MainViewMode::Address => match self.normalize(mode) {
                MainViewTab::AddressInfo => MainViewTab::AddressPermissions,
                MainViewTab::AddressTransactions => MainViewTab::AddressInfo,
                MainViewTab::AddressInternal => MainViewTab::AddressTransactions,
                MainViewTab::AddressBalances => MainViewTab::AddressInternal,
                _ => MainViewTab::AddressBalances,
            },
            MainViewMode::Transaction => match self.normalize(mode) {
                MainViewTab::TransactionSummary => MainViewTab::TransactionStorageDiff,
                MainViewTab::TransactionDebug => MainViewTab::TransactionSummary,
                _ => MainViewTab::TransactionDebug,
            },
        }
    }
}

/// Normalizing a tab twice for the same mode gives what normalizing once gives.
pub proof fn lemma_normalize_idempotent(tab: MainViewTab, mode: MainViewMode)
    ensures
        spec_normalize(spec_normalize(tab, mode), mode) == spec_normalize(tab, mode),
{
}

/// Within one mode, stepping back after stepping forward lands on the
/// normalized tab, and so does stepping forward after stepping back.
pub proof fn lemma_next_previous_inverse(tab: MainViewTab, mode: MainViewMode)
    ensures
        spec_previous_tab(spec_next_tab(tab, mode), mode) == spec_normalize(tab, mode),
        spec_next_tab(spec_previous_tab(tab, mode), mode) == spec_normalize(tab, mode),
{
}

/// Which pane has focus, where focus returns after the modal closes, and the
/// tab state of the sidebar and of the main view.
#[derive(Debug)]
pub struct NavigationState {
    pub focused_pane: FocusedPane,
    pub modal_return_focus: FocusedPane,
    pub sidebar_tab: SidebarTab,
    pub main_view_mode: MainViewMode,
    pub main_view_tab: MainViewTab,
}

impl Default for NavigationState {
    fn default() -> (r: Self)
        ensures
            r.focused_pane == FocusedPane::Top,
            r.modal_return_focus == FocusedPane::Top,
            r.sidebar_tab == SidebarTab::Addresses,
            r.main_view_mode == MainViewMode::Address,
            r.main_view_tab == default_tab(MainViewMode::Address),
            r.wf(),
    {
        NavigationState {
            focused_pane: FocusedPane::Top,
            modal_return_focus: FocusedPane::Top,
            sidebar_tab: SidebarTab::Addresses,
            main_view_mode: MainViewMode::Address,
            main_view_tab: MainViewTab::AddressInfo,
        }
    }
}

impl NavigationState {
    /// The main-view tab belongs to the current mode, and the modal is never
    /// its own return point.
    pub open spec fn wf(&self) -> bool {
        &&& mode_of_tab(self.main_view_tab) == self.main_view_mode
        &&& self.modal_return_focus != FocusedPane::Modal
    }

    /// The same state with only focus and return point replaced.
    pub open spec fn with_focus(&self, focused: FocusedPane, back: FocusedPane) -> NavigationState {
        NavigationState { focused_pane: focused, modal_return_focus: back, ..*self }
    }

    pub open spec fn after_focus_modal(&self) -> NavigationState {
        if self.focused_pane == FocusedPane::Modal {
            *self
        } else {
            self.with_focus(FocusedPane::Modal, self.focused_pane)
        }
    }

    pub open spec fn after_focus_pane(&self, pane: FocusedPane) -> NavigationState {
        if pane == FocusedPane::Modal {
            self.after_focus_modal()
        } else {
            self.with_focus(pane, pane)
        }
    }

    pub fn focus_pane(&mut self, pane: FocusedPane)
        ensures
            *final(self) == old(self).after_focus_pane(pane),
    {
        match pane {
            FocusedPane::Modal => self.focus_modal(),
            other => {
                self.focused_pane = other;
                self.modal_return_focus = other;
            },
        }
    }

    pub fn focus_modal(&mut self)
        ensures
            *final(self) == old(self).after_focus_modal(),
    {
        if self.focused_pane != FocusedPane::Modal {
            self.modal_return_focus = self.focused_pane;
        }
        self.focused_pane = FocusedPane::Modal;
    }

    pub fn restore_focus_after_modal(&mut self)
        ensures
            *final(self) == old(self).with_focus(
                old(self).modal_return_focus,
                old(self).modal_return_focus,
            ),
    {
        self.focused_pane = self.modal_return_focus;
        self.modal_return_focus = self.focused_pane;
    }

    pub fn focus_next(&mut self)
        ensures
            *final(self) == old(self).after_focus_pane(pane_after(old(self).focused_pane)),
    {
        let next = match self.focused_pane {
            FocusedPane::Top => FocusedPane::Sidebar,
            FocusedPane::Sidebar => FocusedPane::MainView,
            FocusedPane::MainView => FocusedPane::BottomBar,
            _ => FocusedPane::Top,
        };
        self.focus_pane(next);
    }

    pub fn focus_previous(&mut self)
        ensures
            *final(self) == old(self).after_focus_pane(
                pane_before(old(self).focused_pane, old(self).modal_return_focus),
            ),
    {
        let previous = match self.focused_pane {
            FocusedPane::Top => FocusedPane::BottomBar,
            FocusedPane::Sidebar => FocusedPane::Top,
            FocusedPane::MainView => FocusedPane::Sidebar,
            FocusedPane::BottomBar => FocusedPane::MainView,
            FocusedPane::Modal => self.modal_return_focus,
        };
        self.focus_pane(previous);
    }

    pub fn next_main_view_tab(&mut self)
        ensures
            *final(self) == (NavigationState {
                main_view_tab: spec_next_tab(old(self).main_view_tab, old(self).main_view_mode),
                ..*old(self)
            }),
    {
        self.main_view_tab = self.main_view_tab.next(self.main_view_mode);
    }

    pub fn previous_main_view_tab(&mut self)
        ensures
            *final(self) == (NavigationState {
                main_view_tab: spec_previous_tab(old(self).main_view_tab, old(self).main_view_mode),
                ..*old(self)
            }),
    {
        self.main_view_tab = self.main_view_tab.previous(self.main_view_mode);
    }

    /// Switches the main-view mode and normalizes the tab for it.
    pub fn set_main_view_mode(&mut self, mode: MainViewMode)
        ensures
            *final(self) == (NavigationState {
                main_view_mode: mode,
                main_view_tab: spec_normalize(old(self).main_view_tab, mode),
                ..*old(self)
            }),
    {
        self.main_view_mode = mode;
        self.main_view_tab = self.main_view_tab.normalize(mode);
    }
}

/// Cycling never reaches the modal, and every focus change keeps the state
/// well formed.
pub proof fn lemma_focus_cycle_skips_modal(nav: NavigationState, pane: FocusedPane)
    requires
        nav.wf(),
    ensures
        pane_after(nav.focused_pane) != FocusedPane::Modal,
        pane_before(nav.focused_pane, nav.modal_return_focus) != FocusedPane::Modal,
        nav.after_focus_pane(pane).wf(),
{
}

/// Opening the modal twice remembers the pane that was focused before the
/// first opening, and closing it returns there.
pub proof fn lemma_modal_return_point(nav: NavigationState)
    requires
        nav.wf(),
        nav.focused_pane != FocusedPane::Modal,
    ensures
        nav.after_focus_modal().after_focus_modal() == nav.after_focus_modal(),
        nav.after_focus_modal().modal_return_focus == nav.focused_pane,
        ({
            let m = nav.after_focus_modal().after_focus_modal();
            m.with_focus(m.modal_return_focus, m.modal_return_focus).focused_pane == nav.focused_pane
        }),
{
}

} // verus!
