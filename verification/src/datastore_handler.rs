//! The handler of local-store messages: it connects the store, starts the
//! account and domain operations, and applies their outcomes.

use crate::app_state::{
    Account, AppMessage, AppState, DataState, DatabaseMessage, Effect, HandlerResult, MessageCategory,
    ProviderMessage, ProviderPage, SyncMessage, UiState,
};
use crate::gui_model::{AddDomainProviderForm, DomainProvider};
use crate::text::{owned, push_str};
use vstd::prelude::*;

verus! {

/// The store is not connected.
pub open spec fn not_connected_text() -> Seq<char> {
    "数据库未连接"@
}

/// `new` is `old` with a toast showing `text`.
pub open spec fn toast_shown(old: UiState, new: UiState, text: Seq<char>) -> bool {
    &&& new == (UiState { toast_message: new.toast_message, toast_visible: true, ..old })
    &&& new.toast_message matches Some(t) && t@ == text
}

/// The form is empty: no name, provider or credentials, nothing verified.
pub open spec fn provider_form_cleared(f: AddDomainProviderForm) -> bool {
    &&& f.provider_name@.len() == 0
    &&& f.provider is None
    &&& f.credential is None
    &&& f.verification_status is Unverified
}

/// The accounts of `s` other than account `id`, in order.
pub open spec fn providers_without(s: Seq<DomainProvider>, id: i64) -> Seq<DomainProvider>
    decreases s.len(),
{
    if s.len() == 0 {
        Seq::empty()
    } else if s.last().account_id != id {
        providers_without(s.drop_last(), id).push(s.last())
    } else {
        providers_without(s.drop_last(), id)
    }
}

/// An account whose id is not `id`.
pub open spec fn account_other_than(id: i64) -> spec_fn(DomainProvider) -> bool {
    |p: DomainProvider| p.account_id != id
}

proof fn lemma_providers_without_is_filter(s: Seq<DomainProvider>, id: i64)
    ensures
        providers_without(s, id) == s.filter(account_other_than(id)),
    decreases s.len(),
{
    reveal(Seq::filter);
    if s.len() > 0 {
        lemma_providers_without_is_filter(s.drop_last(), id);
    }
}

/// Dropping account `id` keeps every other account, in its order, and no
/// account with that id.
pub proof fn lemma_drop_account_keeps_others(before: Seq<DomainProvider>, after: Seq<DomainProvider>, id: i64)
    requires
        after == providers_without(before, id),
    ensures
        after == before.filter(account_other_than(id)),
        forall|i: int| 0 <= i < after.len() ==> (#[trigger] after[i]).account_id != id,
        forall|p: DomainProvider| #[trigger] before.contains(p) && p.account_id != id ==> after.contains(p),
{
    lemma_providers_without_is_filter(before, id);
    assert forall|i: int| 0 <= i < after.len() implies (#[trigger] after[i]).account_id != id by {
        before.lemma_filter_pred(account_other_than(id), i);
    }
    assert forall|p: DomainProvider| #[trigger] before.contains(p) && p.account_id != id implies after.contains(p) by {
        let i = choose|i: int| 0 <= i < before.len() && before[i] == p;
        before.lemma_filter_contains(account_other_than(id), i);
    }
}

/// Drops account `id` from `v`, keeping the order of the others.
pub fn retain_providers(v: &mut Vec<DomainProvider>, id: i64)
    ensures
        final(v)@ == providers_without(old(v)@, id),
{
    let ghost before = v@;
    let mut kept: Vec<DomainProvider> = Vec::new();
    let mut rest: Vec<DomainProvider> = Vec::new();
    std::mem::swap(&mut rest, v);
    let n = rest.len();
    let mut i: usize = 0;
    while i < n
        invariant
            n == before.len(),
            i <= n,
            rest@ == before.subrange(i as int, n as int),
            kept@ == providers_without(before.subrange(0, i as int), id),
        decreases n - i,
    {
        let p = rest.remove(0);
        proof {
            assert(p == before[i as int]);
            assert(before.subrange(0, i + 1).drop_last() =~= before.subrange(0, i as int));
            assert(rest@ =~= before.subrange(i + 1, n as int));
        }
        if p.account_id != id {
            kept.push(p);
        }
        i = i + 1;
    }
    assert(before.subrange(0, n as int) =~= before);
    *v = kept;
}

/// How a connection outcome changes the state: one connection is kept, a
/// new one marks the state initialised and asks for initialisation, a
/// failure is recorded as the error.
pub open spec fn connected_outcome(old: AppState, new: AppState, result: Result<u64, String>, r: HandlerResult) -> bool {
    if old.database is Some {
        r is NoChange && new == old
    } else {
        match result {
            Ok(conn) => {
                &&& new == (AppState { database: Some(conn), initialized: true, ..old })
                &&& r matches HandlerResult::Task(Effect::Emit(MessageCategory::App(AppMessage::Initialize)))
            },
            Err(e) => {
                &&& new == (AppState { ui: new.ui, ..old })
                &&& new.ui == (UiState { error: new.ui.error, ..old.ui })
                &&& new.ui.error matches Some(m) && m@ == "数据库连接失败: "@ + e@
                &&& r is Nothing
            },
        }
    }
}

/// `new` is `old` with only the account form changed, and the form is empty.
pub open spec fn only_form_cleared(old: AppState, new: AppState) -> bool {
    &&& new.data.provider_page == (ProviderPage { form: new.data.provider_page.form, ..old.data.provider_page })
    &&& new.data == (DataState { provider_page: new.data.provider_page, ..old.data })
    &&& provider_form_cleared(new.data.provider_page.form)
}

/// How an account-creation outcome changes the state.
pub open spec fn account_added_outcome(old: AppState, new: AppState, result: Result<Account, String>, r: HandlerResult) -> bool {
    match result {
        Ok(_) => {
            &&& new == (AppState { ui: new.ui, data: new.data, ..old })
            &&& toast_shown(UiState { is_loading: false, ..old.ui }, new.ui, "服务商添加成功"@)
            &&& only_form_cleared(old, new)
            &&& r matches HandlerResult::Task(Effect::Emit(MessageCategory::Sync(SyncMessage::Reload)))
        },
        Err(e) => {
            &&& new == (AppState { ui: new.ui, ..old })
            &&& toast_shown(UiState { is_loading: false, ..old.ui }, new.ui, "添加失败: "@ + e@)
            &&& r is Nothing
        },
    }
}

/// How an account-update outcome changes the state.
pub open spec fn account_updated_outcome(old: AppState, new: AppState, result: Result<(), String>, r: HandlerResult) -> bool {
    &&& new.ui == (UiState { is_loading: false, message: new.ui.message, ..old.ui })
    &&& match result {
        Ok(()) => {
            &&& new == (AppState { ui: new.ui, data: new.data, ..old })
            &&& new.ui.message@ == "账户更新成功"@
            &&& new.data.provider_page == (ProviderPage {
                form: new.data.provider_page.form,
                editing_provider_id: None,
                ..old.data.provider_page
            })
            &&& new.data == (DataState { provider_page: new.data.provider_page, ..old.data })
            &&& provider_form_cleared(new.data.provider_page.form)
            &&& r matches HandlerResult::Task(Effect::Emit(MessageCategory::Sync(SyncMessage::Reload)))
        },
        Err(e) => {
            &&& new == (AppState { ui: new.ui, ..old })
            &&& new.ui.message@ == "账户更新失败: "@ + e@
            &&& r matches HandlerResult::Task(Effect::NoTask)
        },
    }
}

/// How an account-deletion outcome changes the state.
pub open spec fn account_deleted_outcome(old: AppState, new: AppState, result: Result<i64, String>, r: HandlerResult) -> bool {
    &&& r matches HandlerResult::Task(Effect::NoTask)
    &&& match result {
        Ok(id) => {
            &&& new == (AppState { ui: new.ui, data: new.data, ..old })
            &&& toast_shown(UiState { is_loading: false, ..old.ui }, new.ui, "服务商删除成功"@)
            &&& new.data.provider_page == (ProviderPage {
                providers: new.data.provider_page.providers,
                ..old.data.provider_page
            })
            &&& new.data == (DataState { provider_page: new.data.provider_page, ..old.data })
            &&& new.data.provider_page.providers@ == providers_without(old.data.provider_page.providers@, id)
        },
        Err(e) => {
            &&& new == (AppState { ui: new.ui, ..old })
            &&& toast_shown(UiState { is_loading: false, ..old.ui }, new.ui, "删除失败: "@ + e@)
        },
    }
}

/// How a store message changes the state and what it asks for. Requests
/// to add, change or delete accounts and domains leave the state as it is
/// and become store operations on the connection, or, without one, the
/// failed outcome `数据库未连接` (a change of an account is then dropped).
pub open spec fn datastore_outcome(old: AppState, new: AppState, message: DatabaseMessage, r: HandlerResult) -> bool {
    match message {
        DatabaseMessage::Connected(result) => connected_outcome(old, new, result, r),
        DatabaseMessage::AddAccount(account) => {
            &&& new == old
            &&& match old.database {
                Some(conn) => r == HandlerResult::Task(Effect::CreateAccount { conn, account }),
                None => r matches HandlerResult::Task(
                    Effect::Emit(MessageCategory::Database(DatabaseMessage::AccountAdded(Err(m)))),
                ) && m@ == not_connected_text(),
            }
        },
        DatabaseMessage::AccountAdded(result) => account_added_outcome(old, new, result, r),
        DatabaseMessage::UpdateAccount(account) => {
            &&& new == old
            &&& match old.database {
                Some(conn) => r == HandlerResult::Task(Effect::UpdateAccount { conn, account }),
                None => r is Nothing,
            }
        },
        DatabaseMessage::AccountUpdated(result) => account_updated_outcome(old, new, result, r),
        DatabaseMessage::DeleteAccount(id) => {
            &&& new == old
            &&& match old.database {
                Some(conn) => r == HandlerResult::Task(Effect::DeleteAccount { conn, id }),
                None => r matches HandlerResult::Task(
                    Effect::Emit(MessageCategory::Database(DatabaseMessage::AccountDeleted(Err(m)))),
                ) && m@ == not_connected_text(),
            }
        },
        DatabaseMessage::AccountDeleted(result) => account_deleted_outcome(old, new, result, r),
        DatabaseMessage::DeleteDomain(id) => {
            &&& new == old
            &&& match old.database {
                Some(conn) => r == HandlerResult::Task(Effect::DeleteDomain { conn, id }),
                None => r matches HandlerResult::Task(
                    Effect::Emit(MessageCategory::Provider(ProviderMessage::DomainDeleted(Err(m)))),
                ) && m@ == not_connected_text(),
            }
        },
        DatabaseMessage::DomainDeleted(_) => r is Nothing && new == old,
        DatabaseMessage::AddDomain(domain) => {
            &&& new == old
            &&& match old.database {
                Some(conn) => r == HandlerResult::Task(Effect::AddDomain { conn, domain }),
                None => r matches HandlerResult::Task(
                    Effect::Emit(MessageCategory::Provider(ProviderMessage::DomainAdded(Err(m)))),
                ) && m@ == not_connected_text(),
            }
        },
        DatabaseMessage::DomainAdded(_) => r is Nothing && new == old,
    }
}

/// Handles the messages of the local store.
#[derive(Debug, Default)]
pub struct DataStoreHandler;

impl DataStoreHandler {
    /// A handler.
    pub fn new() -> (r: DataStoreHandler)
        ensures
            r == (DataStoreHandler),
    {
        DataStoreHandler
    }

    fn handle_connected(&self, state: &mut AppState, result: Result<u64, String>) -> (r: HandlerResult)
        ensures
            connected_outcome(*old(state), *final(state), result, r),
    {
        if state.database.is_some() {
            return HandlerResult::NoChange;
        }
        match result {
            Ok(conn) => {
                state.database = Some(conn);
                state.initialized = true;
                HandlerResult::Task(Effect::Emit(MessageCategory::App(AppMessage::Initialize)))
            },
            Err(e) => {
                let mut m = owned("数据库连接失败: ");
                push_str(&mut m, e.as_str());
                state.ui.error = Some(m);
                HandlerResult::Nothing
            },
        }
    }

    fn handle_account_added(&self, state: &mut AppState, result: Result<Account, String>) -> (r: HandlerResult)
        ensures
            account_added_outcome(*old(state), *final(state), result, r),
    {
        state.ui.is_loading = false;
        match result {
            Ok(_) => {
                state.data.provider_page.form.clear();
                state.ui.show_toast(owned("服务商添加成功"));
                HandlerResult::Task(Effect::Emit(MessageCategory::Sync(SyncMessage::Reload)))
            },
            Err(e) => {
                let mut m = owned("添加失败: ");
                push_str(&mut m, e.as_str());
                state.ui.show_toast(m);
                HandlerResult::Nothing
            },
        }
    }

    fn handle_account_updated(&self, state: &mut AppState, result: Result<(), String>) -> (r: HandlerResult)
        ensures
            account_updated_outcome(*old(state), *final(state), result, r),
    {
        state.ui.is_loading = false;
        match result {
            Ok(()) => {
                state.ui.message = owned("账户更新成功");
                state.data.provider_page.editing_provider_id = None;
                state.data.provider_page.form.clear();
                HandlerResult::Task(Effect::Emit(MessageCategory::Sync(SyncMessage::Reload)))
            },
            Err(e) => {
                let mut m = owned("账户更新失败: ");
                push_str(&mut m, e.as_str());
                state.ui.message = m;
                HandlerResult::Task(Effect::NoTask)
            },
        }
    }

    fn handle_account_deleted(&self, state: &mut AppState, result: Result<i64, String>) -> (r: HandlerResult)
        ensures
            account_deleted_outcome(*old(state), *final(state), result, r),
    {
        state.ui.is_loading = false;
        match result {
            Ok(id) => {
                retain_providers(&mut state.data.provider_page.providers, id);
                state.ui.show_toast(owned("服务商删除成功"));
                HandlerResult::Task(Effect::NoTask)
            },
            Err(e) => {
                let mut m = owned("删除失败: ");
                push_str(&mut m, e.as_str());
                state.ui.show_toast(m);
                HandlerResult::Task(Effect::NoTask)
            },
        }
    }

    /// Handles one store message, as `datastore_outcome` says.
    pub fn handle(&self, state: &mut AppState, message: DatabaseMessage) -> (r: HandlerResult)
        ensures
            datastore_outcome(*old(state), *final(state), message, r),
    {
        match message {
            DatabaseMessage::Connected(result) => self.handle_connected(state, result),
            DatabaseMessage::AddAccount(account) => {
                match state.database {
                    Some(conn) => HandlerResult::Task(Effect::CreateAccount { conn, account }),
                    None => HandlerResult::Task(
                        Effect::Emit(
                            MessageCategory::Database(
                                DatabaseMessage::AccountAdded(Err(owned("数据库未连接"))),
                            ),
                        ),
                    ),
                }
            },
            DatabaseMessage::AccountAdded(result) => self.handle_account_added(state, result),
            DatabaseMessage::UpdateAccount(account) => {
                match state.database {
                    Some(conn) => HandlerResult::Task(Effect::UpdateAccount { conn, account }),
                    None => HandlerResult::Nothing,
                }
            },
            DatabaseMessage::AccountUpdated(result) => self.handle_account_updated(state, result),
            DatabaseMessage::DeleteAccount(id) => {
                match state.database {
                    Some(conn) => HandlerResult::Task(Effect::DeleteAccount { conn, id }),
                    None => HandlerResult::Task(
                        Effect::Emit(
                            MessageCategory::Database(
                                DatabaseMessage::AccountDeleted(Err(owned("数据库未连接"))),
                            ),
                        ),
                    ),
                }
            },
            DatabaseMessage::AccountDeleted(result) => self.handle_account_deleted(state, result),
            DatabaseMessage::DeleteDomain(id) => {
                match state.database {
                    Some(conn) => HandlerResult::Task(Effect::DeleteDomain { conn, id }),
                    None => HandlerResult::Task(
                        Effect::Emit(
                            MessageCategory::Provider(
                                ProviderMessage::DomainDeleted(Err(owned("数据库未连接"))),
                            ),
                        ),
                    ),
                }
            },
            DatabaseMessage::DomainDeleted(_) => HandlerResult::Nothing,
            DatabaseMessage::AddDomain(domain) => {
                match state.database {
                    Some(conn) => HandlerResult::Task(Effect::AddDomain { conn, domain }),
                    None => HandlerResult::Task(
                        Effect::Emit(
                            MessageCategory::Provider(
                                ProviderMessage::DomainAdded(Err(owned("数据库未连接"))),
                            ),
                        ),
                    ),
                }
            },
            DatabaseMessage::DomainAdded(_) => HandlerResult::Nothing,
        }
    }
}

} // verus!
