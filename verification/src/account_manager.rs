use vstd::prelude::*;
use crate::send::{at_rest, context_inv, ContextView, ManagerContext, SendAction};

verus! {

/// The sections of the account page.
#[derive(Clone, Copy, Debug, PartialEq, Eq, Structural)]
pub enum AccountManagerSection {
    Overview,
    Transactions,
    Details,
}

impl Default for AccountManagerSection {
    fn default() -> (r: Self)
        ensures
            r == AccountManagerSection::Overview,
    {
        AccountManagerSection::Overview
    }
}

/// The section an account opens on: the overview on a narrow or portrait
/// screen, the transactions otherwise.
pub fn section_on_select(narrow_screen: bool) -> (r: AccountManagerSection)
    ensures
        r == if narrow_screen { AccountManagerSection::Overview } else { AccountManagerSection::Transactions },
{
    if narrow_screen { AccountManagerSection::Overview } else { AccountManagerSection::Transactions }
}

/// The section shown beside the overview in the two-pane layout: the
/// overview is already on the left, so it becomes the transactions.
pub fn landscape_section(section: AccountManagerSection) -> (r: AccountManagerSection)
    ensures
        r == if section == AccountManagerSection::Overview { AccountManagerSection::Transactions } else { section },
        r != AccountManagerSection::Overview,
{
    if section == AccountManagerSection::Overview { AccountManagerSection::Transactions } else { section }
}


/// The account page: choosing an account, or one account's overview.
#[derive(Clone, Copy, Debug, PartialEq, Eq, Structural)]
pub enum ManagerState {
    Select,
    Overview { account: u64 },
}

/// What the account-selection page does.
#[derive(Clone, Copy, Debug, PartialEq, Eq, Structural)]
pub enum SelectPage {
    /// No wallet is open: the wallet-opening page is shown instead.
    OpenWallet,
    /// The account list cannot be read.
    Unavailable,
    /// The wallet has no account: offer to create one.
    CreateAccount,
    /// The wallet has one account: it is opened right away.
    AutoSelect(u64),
    /// The wallet has several accounts: list them.
    List,
}

/// What the account-selection page does for a wallet state.
pub open spec fn select_page_for(wallet_open: bool, accounts: Option<Seq<u64>>) -> SelectPage {
    if !wallet_open {
        SelectPage::OpenWallet
    } else {
        match accounts {
            None => SelectPage::Unavailable,
            Some(a) => if a.len() == 0 {
                SelectPage::CreateAccount
            } else if a.len() == 1 {
                SelectPage::AutoSelect(a[0])
            } else {
                SelectPage::List
            },
        }
    }
}

/// How the overview of an account is laid out.
#[derive(Clone, Copy, Debug, PartialEq, Eq, Structural)]
pub enum Layout {
    /// The account list is being reloaded.
    Loading,
    /// One section alone (mobile).
    Singular(AccountManagerSection),
    /// The menu above one section (narrow screens).
    MenuAndSingular(AccountManagerSection),
    /// The overview beside another section.
    Landscape(AccountManagerSection),
}

/// What the send part of the overview shows.
#[derive(Clone, Copy, Debug, PartialEq, Eq, Structural)]
pub enum OverviewPanel {
    /// The node is not connected or not synced.
    NetworkState,
    /// A payment is under way.
    Processor,
    /// A payment failed.
    Failure,
    /// The Send, Transfer and Request buttons.
    Buttons,
}

/// What the send part of the overview shows.
pub open spec fn overview_panel_for(connected: bool, synced: bool, action: SendAction) -> OverviewPanel {
    if !synced || !connected {
        OverviewPanel::NetworkState
    } else {
        match action {
            SendAction::Estimating | SendAction::Sending | SendAction::Processing => OverviewPanel::Processor,
            SendAction::Failed => OverviewPanel::Failure,
            SendAction::Idle => OverviewPanel::Buttons,
        }
    }
}

/// What the send part of the overview shows: the network state while the
/// node is not ready, else the payment under way, its failure, or the
/// buttons.
pub fn overview_panel(connected: bool, synced: bool, action: SendAction) -> (r: OverviewPanel)
    ensures
        r == overview_panel_for(connected, synced, action),
{
    if !synced || !connected {
        OverviewPanel::NetworkState
    } else {
        match action {
            SendAction::Estimating | SendAction::Sending | SendAction::Processing => OverviewPanel::Processor,
            SendAction::Failed => OverviewPanel::Failure,
            SendAction::Idle => OverviewPanel::Buttons,
        }
    }
}

/// Whether an account id is in the list.
pub open spec fn listed(accounts: Seq<u64>, id: u64) -> bool {
    exists|i: int| 0 <= i < accounts.len() && accounts[i] == id
}

/// The open account of a page state, if any.
pub open spec fn account_of(s: ManagerState) -> Option<u64> {
    match s {
        ManagerState::Overview { account } => Some(account),
        ManagerState::Select => None,
    }
}

/// The page state after the account list was reloaded: an open account
/// stays open if it is still listed.
pub open spec fn after_update(s: ManagerState, accounts: Seq<u64>) -> ManagerState {
    match s {
        ManagerState::Overview { account } => if listed(accounts, account) { s } else { ManagerState::Select },
        ManagerState::Select => ManagerState::Select,
    }
}

/// The account manager: which account is open, its section, and its send
/// panel.
pub struct AccountManager {
    pub state: ManagerState,
    pub section: AccountManagerSection,
    pub context: ManagerContext,
}

impl AccountManager {
    /// A manager choosing an account, on the overview section.
    pub fn new() -> (r: Self)
        ensures
            r.state == ManagerState::Select,
            r.section == AccountManagerSection::Overview,
            r.context@ == at_rest(r.context@),
            !r.context@.loading,
            r.context@.request_estimate is None,
            context_inv(r.context@),
    {
        AccountManager {
            state: ManagerState::Select,
            section: AccountManagerSection::Overview,
            context: ManagerContext::new(),
        }
    }

    /// Forgets the open account and the send panel.
    pub fn reset(&mut self)
        ensures
            final(self).state == ManagerState::Select,
            final(self).section == old(self).section,
            final(self).context@ == at_rest(final(self).context@),
            !final(self).context@.loading,
            final(self).context@.request_estimate is None,
            context_inv(final(self).context@),
    {
        self.context = ManagerContext::new();
        self.state = ManagerState::Select;
    }

    /// The network changed: an open account waits for its reload.
    pub fn network_change(&mut self)
        ensures
            final(self).state == old(self).state,
            final(self).section == old(self).section,
            final(self).context@ == if old(self).state is Overview {
                ContextView { loading: true, ..old(self).context@ }
            } else {
                old(self).context@
            },
    {
        if let ManagerState::Overview { .. } = self.state {
            self.context.loading = true;
        }
    }

    /// Opens an account, or goes back to choosing one. An account opens on
    /// its overview on a narrow or portrait screen, on its transactions
    /// otherwise. When asked to notify, returns the selection to tell the
    /// wallet.
    pub fn select(&mut self, account: Option<u64>, narrow: bool, notify: bool) -> (r: Option<Option<u64>>)
        ensures
            r == if notify { Some(account) } else { None },
            match account {
                Some(a) => {
                    &&& final(self).state == (ManagerState::Overview { account: a })
                    &&& final(self).section == if narrow { AccountManagerSection::Overview } else { AccountManagerSection::Transactions }
                    &&& final(self).context@ == old(self).context@
                },
                None => {
                    &&& final(self).state == ManagerState::Select
                    &&& final(self).section == old(self).section
                    &&& final(self).context@ == (ContextView { loading: false, ..old(self).context@ })
                },
            },
    {
        match account {
            Some(a) => {
                self.state = ManagerState::Overview { account: a };
                self.section = section_on_select(narrow);
            },
            None => {
                self.state = ManagerState::Select;
                self.context.loading = false;
            },
        }
        if notify { Some(account) } else { None }
    }

    /// Opens an account chosen from the list: the wallet is told, and the
    /// account opens on its overview on a single-pane device, on its
    /// transactions otherwise.
    pub fn choose_account(&mut self, account: u64, narrow: bool, single_pane: bool) -> (r: Option<Option<u64>>)
        ensures
            r == Some(Some(account)),
            final(self).state == (ManagerState::Overview { account }),
            final(self).section == if single_pane { AccountManagerSection::Overview } else { AccountManagerSection::Transactions },
            final(self).context@ == old(self).context@,
    {
        let r = self.select(Some(account), narrow, true);
        self.section = section_on_select(single_pane);
        r
    }

    /// Takes in a reloaded account list: an open account stays open if it is
    /// still listed, otherwise the manager goes back to choosing one.
    pub fn update(&mut self, accounts: &Vec<u64>)
        ensures
            final(self).state == after_update(old(self).state, accounts@),
            final(self).section == old(self).section,
            final(self).context@ == (ContextView { loading: false, ..old(self).context@ }),
    {
        if let ManagerState::Overview { account } = self.state {
            let mut found = false;
            let mut i: usize = 0;
            while i < accounts.len()
                invariant
                    i <= accounts@.len(),
                    found == exists|j: int| 0 <= j < i && accounts@[j] == account,
                decreases accounts@.len() - i,
            {
                if accounts[i] == account {
                    found = true;
                }
                i = i + 1;
            }
            if !found {
                self.state = ManagerState::Select;
            }
        }
        self.context.loading = false;
    }

    /// Shows a section.
    pub fn change_section(&mut self, section: AccountManagerSection)
        ensures
            final(self).section == section,
            final(self).state == old(self).state,
            final(self).context@ == old(self).context@,
    {
        self.section = section;
    }

    /// The open account, if any.
    pub fn account(&self) -> (r: Option<u64>)
        ensures
            r == account_of(self.state),
    {
        match self.state {
            ManagerState::Overview { account } => Some(account),
            ManagerState::Select => None,
        }
    }

    /// What the account-selection page does for a wallet state.
    pub fn select_page(wallet_open: bool, accounts: Option<&Vec<u64>>) -> (r: SelectPage)
        ensures
            r == select_page_for(wallet_open, match accounts { Some(a) => Some(a@), None => None }),
    {
        if !wallet_open {
            SelectPage::OpenWallet
        } else {
            match accounts {
                None => SelectPage::Unavailable,
                Some(a) => if a.len() == 0 {
                    SelectPage::CreateAccount
                } else if a.len() == 1 {
                    SelectPage::AutoSelect(a[0])
                } else {
                    SelectPage::List
                },
            }
        }
    }

    /// Lays out the open account: a spinner while reloading, one section on
    /// mobile, the menu and one section on a single-pane screen, else the
    /// overview beside another section (the overview section itself is
    /// replaced by the transactions there).
    pub fn overview_layout(&mut self, mobile: bool, single_pane: bool) -> (r: Layout)
        ensures
            final(self).state == old(self).state,
            final(self).context@ == old(self).context@,
            old(self).context@.loading ==> r == Layout::Loading && final(self).section == old(self).section,
            !old(self).context@.loading && mobile ==> r == Layout::Singular(old(self).section) && final(self).section == old(self).section,
            !old(self).context@.loading && !mobile && single_pane ==> r == Layout::MenuAndSingular(old(self).section) && final(self).section == old(self).section,
            !old(self).context@.loading && !mobile && !single_pane ==> {
                &&& final(self).section != AccountManagerSection::Overview
                &&& final(self).section == if old(self).section == AccountManagerSection::Overview { AccountManagerSection::Transactions } else { old(self).section }
                &&& r == Layout::Landscape(final(self).section)
            },
    {
        if self.context.loading {
            Layout::Loading
        } else if mobile {
            Layout::Singular(self.section)
        } else if single_pane {
            Layout::MenuAndSingular(self.section)
        } else {
            self.section = landscape_section(self.section);
            Layout::Landscape(self.section)
        }
    }
}

/// After a reload of the account list, an open account is one the wallet
/// still lists.
pub proof fn lemma_update_keeps_listed(s: ManagerState, accounts: Seq<u64>)
    ensures
        account_of(after_update(s, accounts)) matches Some(a) ==> listed(accounts, a),
{
}

/// Reloading the same account list twice changes nothing more than once.
pub proof fn lemma_update_idempotent(s: ManagerState, accounts: Seq<u64>)
    ensures
        after_update(after_update(s, accounts), accounts) == after_update(s, accounts),
{
}

/// The account opened by a selection is the one the manager reports, and
/// stays open through a reload that still lists it.
pub proof fn lemma_select_then_account(account: u64, accounts: Seq<u64>)
    ensures
        account_of(ManagerState::Overview { account }) == Some(account),
        listed(accounts, account) ==> account_of(after_update(ManagerState::Overview { account }, accounts)) == Some(account),
{
}

/// How the fee of a transaction is chosen. Each kind but `Unset` carries the
/// fee-rate bucket it was picked from; `B` is the wallet's bucket type, which
/// this library only hands on.
#[derive(Clone, Copy, Debug)]
pub enum FeeMode<B> {
    /// No fee mode chosen.
    Unset,
    Low(B),
    Economic(B),
    Priority(B),
}

/// The bucket a fee mode was picked from, `none` for no mode.
pub open spec fn fee_bucket<B>(m: FeeMode<B>, none: B) -> B {
    match m {
        FeeMode::Unset => none,
        FeeMode::Low(b) => b,
        FeeMode::Economic(b) => b,
        FeeMode::Priority(b) => b,
    }
}

/// Two fee modes of the same kind, whatever their buckets.
pub open spec fn same_fee_kind<B>(a: FeeMode<B>, b: FeeMode<B>) -> bool {
    match (a, b) {
        (FeeMode::Unset, FeeMode::Unset) => true,
        (FeeMode::Low(_), FeeMode::Low(_)) => true,
        (FeeMode::Economic(_), FeeMode::Economic(_)) => true,
        (FeeMode::Priority(_), FeeMode::Priority(_)) => true,
        _ => false,
    }
}

/// The name a fee mode is shown by.
pub open spec fn fee_mode_text<B>(m: FeeMode<B>) -> Seq<char> {
    match m {
        FeeMode::Unset => "N/A"@,
        FeeMode::Low(_) => "Low"@,
        FeeMode::Economic(_) => "Economic"@,
        FeeMode::Priority(_) => "Priority"@,
    }
}

impl<B: Copy> FeeMode<B> {
    /// The bucket the mode was picked from; for no mode, `none`, the
    /// wallet's default bucket.
    pub fn bucket(&self, none: B) -> (r: B)
        ensures
            r == fee_bucket(*self, none),
    {
        match self {
            FeeMode::Unset => none,
            FeeMode::Low(b) => *b,
            FeeMode::Economic(b) => *b,
            FeeMode::Priority(b) => *b,
        }
    }

    /// The name the mode is shown by.
    pub fn to_text(&self) -> (r: &'static str)
        ensures
            r@ == fee_mode_text(*self),
    {
        match self {
            FeeMode::Unset => "N/A",
            FeeMode::Low(_) => "Low",
            FeeMode::Economic(_) => "Economic",
            FeeMode::Priority(_) => "Priority",
        }
    }
}

impl<B> PartialEq for FeeMode<B> {
    fn eq(&self, other: &Self) -> (r: bool) {
        match (self, other) {
            (FeeMode::Unset, FeeMode::Unset) => true,
            (FeeMode::Low(_), FeeMode::Low(_)) => true,
            (FeeMode::Economic(_), FeeMode::Economic(_)) => true,
            (FeeMode::Priority(_), FeeMode::Priority(_)) => true,
            _ => false,
        }
    }
}

impl<B> vstd::std_specs::cmp::PartialEqSpecImpl for FeeMode<B> {
    open spec fn obeys_eq_spec() -> bool {
        true
    }

    open spec fn eq_spec(&self, other: &FeeMode<B>) -> bool {
        same_fee_kind(*self, *other)
    }
}

impl<B> Eq for FeeMode<B> {}

/// Fee modes compare by their kind alone: the same kind with different
/// buckets is the same mode, and different kinds never are.
pub proof fn lemma_fee_modes_compare_by_kind<B>(a: B, b: B)
    ensures
        same_fee_kind(FeeMode::Low(a), FeeMode::Low(b)),
        same_fee_kind(FeeMode::Economic(a), FeeMode::Economic(b)),
        same_fee_kind(FeeMode::Priority(a), FeeMode::Priority(b)),
        !same_fee_kind(FeeMode::Low(a), FeeMode::Economic(b)),
        !same_fee_kind(FeeMode::Economic(a), FeeMode::Priority(b)),
        !same_fee_kind(FeeMode::Unset, FeeMode::Low(b)),
        fee_bucket(FeeMode::Priority(a), b) == a,
{
}

/// While the node is connected and synced, the overview shows the payment
/// form exactly while a payment is under way (estimating, sending or
/// processing), the failure after a failed one, and the buttons at rest;
/// otherwise it shows the network state.
pub proof fn lemma_overview_panel_by_action(connected: bool, synced: bool, action: SendAction)
    ensures
        (connected && synced) ==> ((overview_panel_for(connected, synced, action) == OverviewPanel::Processor)
            == (action == SendAction::Estimating || action == SendAction::Sending || action == SendAction::Processing)),
        (connected && synced) ==> ((overview_panel_for(connected, synced, action) == OverviewPanel::Failure)
            == (action == SendAction::Failed)),
        (connected && synced) ==> ((overview_panel_for(connected, synced, action) == OverviewPanel::Buttons)
            == (action == SendAction::Idle)),
        !(connected && synced) ==> overview_panel_for(connected, synced, action) == OverviewPanel::NetworkState,
{
}

} // verus!
