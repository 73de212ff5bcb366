//! One row of the hosting-account list: its title and summary, its status
//! mark, the actions it offers and, when expanded, its domains.

use crate::gui_model::{provider_name, Domain, DomainProvider, ProviderStatus};
use crate::text::{decimal, owned, push_decimal, push_str};
use vstd::prelude::*;

verus! {

/// The colour of the status mark of an account.
#[derive(Debug, Clone, Copy, PartialEq, Eq, Structural)]
pub enum StatusMark {
    Green,
    Grey,
    Red,
}

/// The buttons at the end of an account row.
#[derive(Debug, Clone, Copy, PartialEq, Eq, Structural)]
pub enum RowActions {
    /// "确认删除?" with confirm and cancel buttons, while a deletion waits.
    ConfirmDelete,
    /// Add-domain, edit and delete buttons.
    AddEditDelete,
    /// Nothing but reserved space.
    Placeholder,
}

/// A domain listed under an expanded account, with its sync and delete
/// buttons.
#[derive(Debug, Clone)]
pub struct DomainEntry {
    pub name: String,
    pub domain_id: i64,
}

/// What the row of one account shows.
#[derive(Debug, Clone)]
pub struct ProviderRow {
    pub account_id: i64,
    pub title: String,
    pub summary: String,
    pub status: StatusMark,
    pub actions: RowActions,
    pub highlighted: bool,
    pub show_add_form: bool,
    pub new_domain_name: String,
    pub empty_message: Option<String>,
    pub domains: Vec<DomainEntry>,
}

/// The status mark of a standing: green when active, grey when inactive,
/// red on error.
pub open spec fn status_mark(s: ProviderStatus) -> StatusMark {
    match s {
        ProviderStatus::Active => StatusMark::Green,
        ProviderStatus::Inactive => StatusMark::Grey,
        ProviderStatus::Error => StatusMark::Red,
    }
}

/// The title of an account row: its name, then the provider's name in
/// brackets.
pub open spec fn row_title(p: DomainProvider) -> Seq<char> {
    p.provider_name@ + " ("@ + provider_name(p.provider) + ")"@
}

/// The summary line: the number of domains and the last sync time, or
/// "从未同步" when it never synced.
pub open spec fn row_summary(p: DomainProvider) -> Seq<char> {
    "已管理 "@ + decimal(p.domain_count as nat) + " 个域名 • 最后同步于 "@ + match p.last_synced_at {
        Some(t) => t@,
        None => "从未同步"@,
    }
}

/// The message an expanded account without domains shows.
pub open spec fn no_domains_message() -> Seq<char> {
    "暂无域名或未同步"@
}

/// The buttons of a row: the deletion question while a deletion waits,
/// else the three buttons when hovered or expanded, else nothing.
pub open spec fn row_actions(p: DomainProvider, hovered: bool, deleting: bool) -> RowActions {
    if deleting {
        RowActions::ConfirmDelete
    } else if hovered || p.is_expanded {
        RowActions::AddEditDelete
    } else {
        RowActions::Placeholder
    }
}

/// `r` is the row of account `p`: title, summary, mark and buttons as
/// above; highlighted when hovered; when expanded, the add-domain form if
/// one is open, the domains in order, and the empty message when it has
/// none and no form is open; when collapsed, no form, no domains and no
/// message.
pub open spec fn provider_row_spec(p: DomainProvider, hovered: bool, deleting: bool, r: ProviderRow) -> bool {
    &&& r.account_id == p.account_id
    &&& r.title@ == row_title(p)
    &&& r.summary@ == row_summary(p)
    &&& r.status == status_mark(p.status)
    &&& r.actions == row_actions(p, hovered, deleting)
    &&& r.highlighted == hovered
    &&& r.show_add_form == (p.is_expanded && p.is_adding_domain)
    &&& r.new_domain_name@ == p.new_domain_name@
    &&& if p.is_expanded {
        &&& r.domains@.len() == p.domains@.len()
        &&& forall|i: int| 0 <= i < r.domains@.len() ==> {
            &&& (#[trigger] r.domains@[i]).name@ == p.domains@[i].name@
            &&& r.domains@[i].domain_id == p.domains@[i].id
        }
        &&& if p.domains@.len() == 0 && !p.is_adding_domain {
            r.empty_message matches Some(m) && m@ == no_domains_message()
        } else {
            r.empty_message is None
        }
    } else {
        r.domains@.len() == 0 && r.empty_message is None
    }
}

fn domain_entries(domains: &Vec<Domain>) -> (r: Vec<DomainEntry>)
    ensures
        r@.len() == domains@.len(),
        forall|i: int| 0 <= i < r@.len() ==> {
            &&& (#[trigger] r@[i]).name@ == domains@[i].name@
            &&& r@[i].domain_id == domains@[i].id
        },
{
    let mut out: Vec<DomainEntry> = Vec::new();
    let mut i: usize = 0;
    while i < domains.len()
        invariant
            i <= domains@.len(),
            out@.len() == i,
            forall|j: int| 0 <= j < i ==> {
                &&& (#[trigger] out@[j]).name@ == domains@[j].name@
                &&& out@[j].domain_id == domains@[j].id
            },
        decreases domains@.len() - i,
    {
        out.push(DomainEntry { name: domains[i].name.clone(), domain_id: domains[i].id });
        i = i + 1;
    }
    out
}

/// The row of account `p`, as `provider_row_spec` says; `hovered` and
/// `deleting` tell whether the pointer is over it and whether its deletion
/// waits for confirmation.
pub fn provider_row(p: &DomainProvider, hovered: bool, deleting: bool) -> (r: ProviderRow)
    ensures
        provider_row_spec(*p, hovered, deleting, r),
{
    let mut title = p.provider_name.clone();
    push_str(&mut title, " (");
    push_str(&mut title, p.provider.name());
    push_str(&mut title, ")");
    let mut summary = owned("已管理 ");
    push_decimal(&mut summary, p.domain_count as u64);
    push_str(&mut summary, " 个域名 • 最后同步于 ");
    match &p.last_synced_at {
        Some(t) => push_str(&mut summary, t.as_str()),
        None => push_str(&mut summary, "从未同步"),
    }
    let status = match p.status {
        ProviderStatus::Active => StatusMark::Green,
        ProviderStatus::Inactive => StatusMark::Grey,
        ProviderStatus::Error => StatusMark::Red,
    };
    let actions = if deleting {
        RowActions::ConfirmDelete
    } else if hovered || p.is_expanded {
        RowActions::AddEditDelete
    } else {
        RowActions::Placeholder
    };
    let (domains, empty_message) = if p.is_expanded {
        let empty = if p.domains.len() == 0 && !p.is_adding_domain {
            Some(owned("暂无域名或未同步"))
        } else {
            None
        };
        (domain_entries(&p.domains), empty)
    } else {
        (Vec::new(), None)
    };
    ProviderRow {
        account_id: p.account_id,
        title,
        summary,
        status,
        actions,
        highlighted: hovered,
        show_add_form: p.is_expanded && p.is_adding_domain,
        new_domain_name: p.new_domain_name.clone(),
        empty_message,
        domains,
    }
}

} // verus!
