//! The handler of hosting-account messages: the add/edit form, credential
//! checks, and loading, adding and deleting accounts.

use crate::app_state::{
    Account, AppState, DataState, DatabaseMessage, Effect, HandlerResult, MessageCategory, NewAccount,
    ProviderMessage, ProviderPage, UiState,
};
use crate::datastore_handler::toast_shown;
use crate::gui_model::{
    provider_credential, provider_from_value, provider_name, provider_value,
    AddDomainProviderForm, Credential, DnsProvider, DomainProvider, ProviderStatus, VerificationStatus,
};
use crate::text::{decimal, lemma_decimal_injective, owned, push_decimal, push_str, str_eq};
use vstd::prelude::*;
use vstd::set_lib::{lemma_int_range, lemma_len_subset, lemma_map_size, set_int_range};

verus! {

/// The `k`-th name tried for a new account named after `base`: `base`
/// itself, then `base 1`, `base 2`, and so on.
pub open spec fn candidate_name(base: Seq<char>, k: nat) -> Seq<char> {
    if k == 0 {
        base
    } else {
        base + " "@ + decimal(k)
    }
}

/// The names of a list of accounts.
pub open spec fn provider_names(s: Seq<DomainProvider>) -> Seq<Seq<char>> {
    s.map_values(|p: DomainProvider| p.provider_name@)
}

/// `name` is the first of `base`, `base 1`, `base 2`, ... that `names`
/// does not hold.
pub open spec fn is_first_free_name(name: Seq<char>, base: Seq<char>, names: Seq<Seq<char>>) -> bool {
    exists|k: nat|
        k <= names.len() && name == #[trigger] candidate_name(base, k) && !names.contains(name) && forall|j: nat|
            j < k ==> names.contains(#[trigger] candidate_name(base, j))
}

/// Different tries give different names.
pub proof fn lemma_candidates_distinct(base: Seq<char>, j: nat, k: nat)
    requires
        j != k,
    ensures
        candidate_name(base, j) != candidate_name(base, k),
{
    reveal_strlit(" ");
    if j == 0 || k == 0 {
        let m = if j == 0 { k } else { j };
        assert(candidate_name(base, m).len() > base.len());
    } else {
        let a = candidate_name(base, j);
        let b = candidate_name(base, k);
        if a == b {
            assert(a.subrange(base.len() + 1int, a.len() as int) =~= decimal(j));
            assert(b.subrange(base.len() + 1int, b.len() as int) =~= decimal(k));
            lemma_decimal_injective(j, k);
        }
    }
}

/// When the first `k` tries are all taken, there are at least `k` names.
pub proof fn lemma_taken_tries_bound(base: Seq<char>, names: Seq<Seq<char>>, k: nat)
    requires
        forall|j: nat| j < k ==> names.contains(#[trigger] candidate_name(base, j)),
    ensures
        k <= names.len(),
{
    let x = set_int_range(0, k as int);
    let f = |j: int| candidate_name(base, j as nat);
    lemma_int_range(0, k as int);
    assert forall|a: int, b: int| x.contains(a) && x.contains(b) && #[trigger] f(a) == #[trigger] f(b) implies a == b by {
        if a != b {
            lemma_candidates_distinct(base, a as nat, b as nat);
        }
    }
    let y = x.map(f);
    lemma_map_size(x, y, f);
    let all = names.to_set();
    assert forall|v: Seq<char>| y.contains(v) implies all.contains(v) by {
        let j = choose|j: int| x.contains(j) && f(j) == v;
        assert(names.contains(candidate_name(base, j as nat)));
    }
    names.lemma_cardinality_of_set();
    vstd::seq_lib::seq_to_set_is_finite(names);
    lemma_len_subset(y, all);
}

fn name_taken(providers: &Vec<DomainProvider>, name: &str) -> (r: bool)
    ensures
        r == provider_names(providers@).contains(name@),
{
    let mut i: usize = 0;
    while i < providers.len()
        invariant
            i <= providers@.len(),
            forall|j: int| 0 <= j < i ==> providers@[j].provider_name@ != name@,
        decreases providers@.len() - i,
    {
        if str_eq(providers[i].provider_name.as_str(), name) {
            assert(provider_names(providers@)[i as int] == name@);
            return true;
        }
        i = i + 1;
    }
    assert forall|j: int| 0 <= j < provider_names(providers@).len() implies provider_names(providers@)[j] != name@ by {
        assert(providers@[j].provider_name@ != name@);
    }
    false
}

/// The name a new account of kind `base` gets: the first of `base`,
/// `base 1`, `base 2`, ... that no account in `providers` is named.
pub fn unique_account_name(base: &str, providers: &Vec<DomainProvider>) -> (r: String)
    ensures
        is_first_free_name(r@, base@, provider_names(providers@)),
{
    let ghost names = provider_names(providers@);
    let mut name = owned(base);
    let mut counter: u128 = 1;
    let n = providers.len();
    assert(name@ == candidate_name(base@, 0));
    loop
        invariant
            names == provider_names(providers@),
            names.len() == n,
            1 <= counter,
            counter - 1 <= names.len(),
            name@ == candidate_name(base@, (counter - 1) as nat),
            forall|j: nat| j < counter - 1 ==> names.contains(#[trigger] candidate_name(base@, j)),
        ensures
            1 <= counter,
            counter - 1 <= names.len(),
            name@ == candidate_name(base@, (counter - 1) as nat),
            !names.contains(name@),
            forall|j: nat| j < counter - 1 ==> names.contains(#[trigger] candidate_name(base@, j)),
        decreases names.len() + 1 - counter,
    {
        let taken = name_taken(providers, name.as_str());
        if !taken {
            break;
        }
        proof {
            assert forall|j: nat| j < counter implies names.contains(#[trigger] candidate_name(base@, j)) by {
                if j == counter - 1 {
                    assert(names.contains(name@));
                }
            }
            lemma_taken_tries_bound(base@, names, counter as nat);
        }
        let mut next = owned(base);
        push_str(&mut next, " ");
        push_decimal(&mut next, counter as u64);
        name = next;
        counter = counter + 1;
    }
    assert(name@ == candidate_name(base@, (counter - 1) as nat));
    name
}

/// Credentials of the same kind as `c`.
pub open spec fn same_credential_kind(a: Credential, b: Credential) -> bool {
    ||| (a is UsernamePassword && b is UsernamePassword)
    ||| (a is Token && b is Token)
    ||| (a is ApiKey && b is ApiKey)
}

/// `new` is `old` with only the account form changed.
pub open spec fn only_form_changed(old: AppState, new: AppState) -> bool {
    &&& new == (AppState { data: new.data, ..old })
    &&& new.data == (DataState { provider_page: new.data.provider_page, ..old.data })
    &&& new.data.provider_page == (ProviderPage { form: new.data.provider_page.form, ..old.data.provider_page })
}

/// How choosing account kind `p` in the form changes the state: the form
/// takes the kind, empty credentials of its type and the first free name
/// after the kind's name, and the choice is reported.
pub open spec fn kind_selected_outcome(old: AppState, new: AppState, p: DnsProvider, r: HandlerResult) -> bool {
    let f = new.data.provider_page.form;
    &&& r is StateUpdated
    &&& new == (AppState {
        ui: UiState { message: new.ui.message, ..old.ui },
        data: new.data,
        ..old
    })
    &&& new.data == (DataState { provider_page: new.data.provider_page, ..old.data })
    &&& new.data.provider_page == (ProviderPage { form: f, ..old.data.provider_page })
    &&& f.provider == Some(p)
    &&& f.credential matches Some(c) && c@ == provider_credential(p)
    &&& is_first_free_name(f.provider_name@, provider_name(p), provider_names(old.data.provider_page.providers@))
    &&& f.verification_status == old.data.provider_page.form.verification_status
    &&& new.ui.message@ == "已选择托管商类型: "@ + provider_value(p)
}

/// The form has a kind, a name and credentials.
pub open spec fn form_complete(f: AddDomainProviderForm) -> bool {
    f.provider is Some && f.provider_name@.len() > 0 && f.credential is Some
}

/// How asking to check the form's credentials changes the state: a form
/// without kind, name or credentials is reported; otherwise loading starts,
/// the check is pending and the form as it was is sent for checking.
pub open spec fn validate_outcome(old: AppState, new: AppState, r: HandlerResult) -> bool {
    let f = old.data.provider_page.form;
    if f.provider is None {
        new == (AppState { ui: new.ui, ..old }) && toast_shown(old.ui, new.ui, "请先选择托管商类型"@) && r is StateUpdated
    } else if f.provider_name@.len() == 0 {
        new == (AppState { ui: new.ui, ..old }) && toast_shown(old.ui, new.ui, "请输入托管商名称"@) && r is StateUpdated
    } else if f.credential is None {
        new == (AppState { ui: new.ui, ..old }) && toast_shown(old.ui, new.ui, "请配置凭证信息"@) && r is StateUpdated
    } else {
        &&& new == (AppState {
            ui: UiState { is_loading: true, ..old.ui },
            data: DataState {
                provider_page: ProviderPage {
                    form: AddDomainProviderForm { verification_status: VerificationStatus::Pending, ..f },
                    ..old.data.provider_page
                },
                ..old.data
            },
            ..old
        })
        &&& r == HandlerResult::StateUpdatedWithTask(Effect::ValidateCredential { form: f })
    }
}

/// How asking to save the form changes the state: a form without kind,
/// name or credentials is reported; otherwise loading starts and the
/// account is sent to the store, as a change of the account being edited
/// or as a new account.
pub open spec fn add_credential_outcome(old: AppState, new: AppState, r: HandlerResult) -> bool {
    let f = old.data.provider_page.form;
    if f.provider is None {
        new == (AppState { ui: new.ui, ..old }) && toast_shown(old.ui, new.ui, "请选择提供商类型"@) && r is StateUpdated
    } else if f.provider_name@.len() == 0 {
        new == (AppState { ui: new.ui, ..old }) && toast_shown(old.ui, new.ui, "请输入提供商名称"@) && r is StateUpdated
    } else if f.credential is None {
        new == (AppState { ui: new.ui, ..old }) && toast_shown(old.ui, new.ui, "请提供凭证信息"@) && r is StateUpdated
    } else {
        &&& new == (AppState { ui: UiState { is_loading: true, ..old.ui }, ..old })
        &&& match old.data.provider_page.editing_provider_id {
            Some(id) => r matches HandlerResult::StateUpdatedWithTask(
                Effect::Emit(MessageCategory::Database(DatabaseMessage::UpdateAccount(a))),
            ) && a.id == id && a.username == f.provider_name && a.provider_type@ == provider_name(f.provider.unwrap())
                && a.email@ == "example@qq.com"@ && a.credential == f.credential.unwrap(),
            None => r matches HandlerResult::StateUpdatedWithTask(
                Effect::Emit(MessageCategory::Database(DatabaseMessage::AddAccount(a))),
            ) && a.provider == f.provider.unwrap() && a.username == f.provider_name && a.email@ == "example@qq.com"@
                && a.credential == f.credential.unwrap(),
        }
    }
}

/// The position of account `id` in `s`.
pub open spec fn account_index(s: Seq<DomainProvider>, id: i64) -> Option<int> {
    if exists|i: int| 0 <= i < s.len() && s[i].account_id == id {
        Some(choose|i: int| 0 <= i < s.len() && s[i].account_id == id && forall|j: int| 0 <= j < i ==> s[j].account_id != id)
    } else {
        None
    }
}

/// How asking to edit account `id` changes the state: the form takes the
/// account's name, kind and credentials, is shown, and edits that account;
/// an unknown account is reported.
pub open spec fn edit_outcome(old: AppState, new: AppState, id: i64, r: HandlerResult) -> bool {
    &&& r is StateUpdated
    &&& match account_index(old.data.provider_page.providers@, id) {
        Some(i) => {
            let p = old.data.provider_page.providers@[i];
            &&& new == (AppState { data: new.data, ..old })
            &&& new.data == (DataState { provider_page: new.data.provider_page, ..old.data })
            &&& new.data.provider_page == (ProviderPage {
                form: AddDomainProviderForm {
                    provider_name: p.provider_name,
                    provider: Some(p.provider),
                    credential: Some(p.credential),
                    ..old.data.provider_page.form
                },
                editing_provider_id: Some(id),
                form_visible: true,
                ..old.data.provider_page
            })
        },
        None => new == (AppState { ui: new.ui, ..old }) && toast_shown(old.ui, new.ui, "未找到指定服务商"@),
    }
}

/// The account as the provider page shows it: named, of the kind its type
/// names, with its credentials, collapsed, inactive and without domains.
pub open spec fn provider_of_account(a: Account, p: DomainProvider) -> bool {
    &&& p.account_id == a.id
    &&& p.provider_name == a.username
    &&& Some(p.provider) == provider_from_value(a.provider_type@)
    &&& p.credential == a.credential
    &&& !p.is_expanded
    &&& !p.is_adding_domain
    &&& p.new_domain_name@.len() == 0
    &&& p.domains@.len() == 0
    &&& p.status == ProviderStatus::Inactive
    &&& p.last_synced_at is None
    &&& p.domain_count == 0
}

/// Every account's type names a known kind.
pub open spec fn accounts_known(s: Seq<Account>) -> bool {
    forall|i: int| 0 <= i < s.len() ==> provider_from_value(#[trigger] s[i].provider_type@) is Some
}

/// A message the handler can carry out: loaded accounts must name known
/// kinds.
pub open spec fn provider_message_ok(message: ProviderMessage) -> bool {
    match message {
        ProviderMessage::Loaded(Ok(accounts)) => accounts_known(accounts@),
        _ => true,
    }
}

impl DomainProvider {
    /// The account as the provider page shows it.
    pub fn from_account(a: Account) -> (p: DomainProvider)
        requires
            provider_from_value(a.provider_type@) is Some,
        ensures
            provider_of_account(a, p),
    {
        let provider = match DnsProvider::from_value(a.provider_type.as_str()) {
            Some(p) => p,
            None => DnsProvider::Aliyun,
        };
        DomainProvider {
            account_id: a.id,
            provider_name: a.username,
            provider,
            credential: a.credential,
            is_expanded: false,
            is_adding_domain: false,
            new_domain_name: String::new(),
            domains: Vec::new(),
            status: ProviderStatus::Inactive,
            last_synced_at: None,
            domain_count: 0,
        }
    }
}

/// How a hosting-account message changes the state and what it asks for.
pub open spec fn provider_outcome(old: AppState, new: AppState, message: ProviderMessage, r: HandlerResult) -> bool {
    let page = old.data.provider_page;
    match message {
        ProviderMessage::Selected(p) => kind_selected_outcome(old, new, p, r),
        ProviderMessage::AddFormNameChanged(name) => r is StateUpdated && new == (AppState {
            data: DataState {
                provider_page: ProviderPage {
                    form: AddDomainProviderForm { provider_name: name, ..page.form },
                    ..page
                },
                ..old.data
            },
            ..old
        }),
        ProviderMessage::AddFormCredentialChanged(c) => {
            &&& r is StateUpdated
            &&& match page.form.credential {
                Some(cur) => if same_credential_kind(cur, c) {
                    new == (AppState {
                        data: DataState {
                            provider_page: ProviderPage {
                                form: AddDomainProviderForm { credential: Some(c), ..page.form },
                                ..page
                            },
                            ..old.data
                        },
                        ..old
                    })
                } else {
                    new == old
                },
                None => new == old,
            }
        },
        ProviderMessage::ValidateCredential => validate_outcome(old, new, r),
        ProviderMessage::AddCredential => add_credential_outcome(old, new, r),
        ProviderMessage::ProviderChange => {
            &&& new == (AppState { ui: UiState { message: new.ui.message, ..old.ui }, ..old })
            &&& new.ui.message@ == "托管商配置已更新"@
            &&& r matches HandlerResult::StateUpdatedWithTask(Effect::Emit(MessageCategory::Provider(ProviderMessage::Load)))
        },
        ProviderMessage::VerificationStatusChanged(st) => {
            let done = st is Success || st is Failed;
            &&& r is StateUpdated
            &&& new == (AppState {
                ui: UiState { is_loading: if done { false } else { old.ui.is_loading }, ..old.ui },
                data: DataState {
                    provider_page: ProviderPage {
                        form: AddDomainProviderForm { verification_status: st, ..page.form },
                        ..page
                    },
                    ..old.data
                },
                ..old
            })
        },
        ProviderMessage::ToggleForm(v) => r is StateUpdated && new == (AppState {
            data: DataState { provider_page: ProviderPage { form_visible: v, ..page }, ..old.data },
            ..old
        }),
        ProviderMessage::Delete(id) => r is StateUpdated && new == (AppState {
            data: DataState { provider_page: ProviderPage { deleting_provider_id: Some(id), ..page }, ..old.data },
            ..old
        }),
        ProviderMessage::CancelDelete => r is StateUpdated && new == (AppState {
            data: DataState { provider_page: ProviderPage { deleting_provider_id: None, ..page }, ..old.data },
            ..old
        }),
        ProviderMessage::ConfirmDelete(id) => {
            &&& new == (AppState {
                ui: UiState { is_loading: true, ..old.ui },
                data: DataState { provider_page: ProviderPage { deleting_provider_id: None, ..page }, ..old.data },
                ..old
            })
            &&& r matches HandlerResult::StateUpdatedWithTask(
                Effect::Emit(MessageCategory::Database(DatabaseMessage::DeleteAccount(d))),
            ) && d == id
        },
        ProviderMessage::Edit(id) => edit_outcome(old, new, id, r),
        ProviderMessage::Load => match old.database {
            Some(conn) => {
                &&& new == (AppState {
                    data: DataState { provider_page: ProviderPage { is_loading: true, ..page }, ..old.data },
                    ..old
                })
                &&& r == HandlerResult::StateUpdatedWithTask(Effect::ListAccounts { conn })
            },
            None => {
                &&& new == (AppState {
                    ui: new.ui,
                    data: DataState { provider_page: ProviderPage { is_loading: false, ..page }, ..old.data },
                    ..old
                })
                &&& toast_shown(old.ui, new.ui, "数据库未连接"@)
                &&& r is StateUpdated
            },
        },
        ProviderMessage::Loaded(result) => {
            &&& r is StateUpdated
            &&& match result {
                Ok(accounts) => {
                    &&& new == (AppState {
                        data: DataState {
                            provider_page: ProviderPage {
                                providers: new.data.provider_page.providers,
                                is_loading: false,
                                ..page
                            },
                            ..old.data
                        },
                        ..old
                    })
                    &&& new.data.provider_page.providers@.len() == accounts@.len()
                    &&& forall|i: int| 0 <= i < accounts@.len() ==> provider_of_account(
                        #[trigger] accounts@[i],
                        new.data.provider_page.providers@[i],
                    )
                },
                Err(e) => {
                    &&& new == (AppState {
                        ui: new.ui,
                        data: DataState { provider_page: ProviderPage { is_loading: false, ..page }, ..old.data },
                        ..old
                    })
                    &&& toast_shown(old.ui, new.ui, "加载服务商失败: "@ + e@)
                },
            }
        },
        _ => r is Nothing && new == old,
    }
}

/// The status a finished credential check reports.
pub open spec fn verification_answer_spec(result: Result<(), String>, m: ProviderMessage) -> bool {
    match result {
        Ok(()) => m == ProviderMessage::VerificationStatusChanged(VerificationStatus::Success),
        Err(e) => m == ProviderMessage::VerificationStatusChanged(VerificationStatus::Failed(e)),
    }
}

/// Handles hosting-account messages.
#[derive(Debug, Clone, Default)]
pub struct ProviderHandler {}

impl ProviderHandler {
    /// A handler.
    pub fn new() -> (r: ProviderHandler)
        ensures
            r == (ProviderHandler {}),
    {
        ProviderHandler {}
    }

    fn handle_add_form_provider_changed(&self, state: &mut AppState, provider: DnsProvider) -> (r: HandlerResult)
        ensures
            kind_selected_outcome(*old(state), *final(state), provider, r),
    {
        state.data.provider_page.form.provider = Some(provider);
        state.data.provider_page.form.credential = Some(provider.credential());
        let new_name = unique_account_name(provider.name(), &state.data.provider_page.providers);
        state.data.provider_page.form.provider_name = new_name;
        let mut m = owned("已选择托管商类型: ");
        push_str(&mut m, provider.value());
        state.ui.message = m;
        HandlerResult::StateUpdated
    }

    fn handle_add_form_credential_changed(&self, state: &mut AppState, c: Credential) -> (r: HandlerResult)
        ensures
            provider_outcome(*old(state), *final(state), ProviderMessage::AddFormCredentialChanged(c), r),
    {
        let matches = match (&state.data.provider_page.form.credential, &c) {
            (Some(Credential::UsernamePassword(_)), Credential::UsernamePassword(_)) => true,
            (Some(Credential::Token(_)), Credential::Token(_)) => true,
            (Some(Credential::ApiKey(_)), Credential::ApiKey(_)) => true,
            _ => false,
        };
        if matches {
            state.data.provider_page.form.credential = Some(c);
        }
        HandlerResult::StateUpdated
    }

    fn handle_validate_credential(&self, state: &mut AppState) -> (r: HandlerResult)
        ensures
            validate_outcome(*old(state), *final(state), r),
    {
        if state.data.provider_page.form.provider.is_none() {
            state.ui.show_toast(owned("请先选择托管商类型"));
            return HandlerResult::StateUpdated;
        }
        if state.data.provider_page.form.provider_name.as_str().unicode_len() == 0 {
            state.ui.show_toast(owned("请输入托管商名称"));
            return HandlerResult::StateUpdated;
        }
        if state.data.provider_page.form.credential.is_none() {
            state.ui.show_toast(owned("请配置凭证信息"));
            return HandlerResult::StateUpdated;
        }
        let form = copy_form(&state.data.provider_page.form);
        state.ui.is_loading = true;
        state.data.provider_page.form.verification_status = VerificationStatus::Pending;
        HandlerResult::StateUpdatedWithTask(Effect::ValidateCredential { form })
    }

    fn handle_add_credential(&self, state: &mut AppState) -> (r: HandlerResult)
        ensures
            add_credential_outcome(*old(state), *final(state), r),
    {
        let provider = match state.data.provider_page.form.provider {
            Some(p) => p,
            None => {
                state.ui.show_toast(owned("请选择提供商类型"));
                return HandlerResult::StateUpdated;
            },
        };
        if state.data.provider_page.form.provider_name.as_str().unicode_len() == 0 {
            state.ui.show_toast(owned("请输入提供商名称"));
            return HandlerResult::StateUpdated;
        }
        let credential = match &state.data.provider_page.form.credential {
            Some(c) => c.duplicate(),
            None => {
                state.ui.show_toast(owned("请提供凭证信息"));
                return HandlerResult::StateUpdated;
            },
        };
        let username = state.data.provider_page.form.provider_name.clone();
        state.ui.is_loading = true;
        match state.data.provider_page.editing_provider_id {
            Some(id) => {
                let account = Account {
                    id,
                    username,
                    provider_type: owned(provider.name()),
                    email: owned("example@qq.com"),
                    credential,
                };
                HandlerResult::StateUpdatedWithTask(
                    Effect::Emit(MessageCategory::Database(DatabaseMessage::UpdateAccount(account))),
                )
            },
            None => {
                let account = NewAccount { provider, username, email: owned("example@qq.com"), credential };
                HandlerResult::StateUpdatedWithTask(
                    Effect::Emit(MessageCategory::Database(DatabaseMessage::AddAccount(account))),
                )
            },
        }
    }

    fn handle_edit_request(&self, state: &mut AppState, id: i64) -> (r: HandlerResult)
        ensures
            edit_outcome(*old(state), *final(state), id, r),
    {
        let ghost s = state.data.provider_page.providers@;
        let mut i: usize = 0;
        while i < state.data.provider_page.providers.len()
            invariant
                *state == *old(state),
                s == state.data.provider_page.providers@,
                i <= s.len(),
                forall|j: int| 0 <= j < i ==> s[j].account_id != id,
            decreases s.len() - i,
        {
            if state.data.provider_page.providers[i].account_id == id {
                proof {
                    let w = choose|k: int| 0 <= k < s.len() && s[k].account_id == id && forall|j: int|
                        0 <= j < k ==> s[j].account_id != id;
                    assert(0 <= i < s.len() && s[i as int].account_id == id && forall|j: int|
                        0 <= j < i ==> s[j].account_id != id);
                    if w < i {
                        assert(s[w].account_id != id);
                    } else if w > i {
                        assert(s[i as int].account_id != id);
                    }
                }
                let name = state.data.provider_page.providers[i].provider_name.clone();
                let kind = state.data.provider_page.providers[i].provider;
                let credential = state.data.provider_page.providers[i].credential.duplicate();
                state.data.provider_page.form.provider_name = name;
                state.data.provider_page.form.provider = Some(kind);
                state.data.provider_page.form.credential = Some(credential);
                state.data.provider_page.editing_provider_id = Some(id);
                state.data.provider_page.form_visible = true;
                return HandlerResult::StateUpdated;
            }
            i = i + 1;
        }
        state.ui.show_toast(owned("未找到指定服务商"));
        HandlerResult::StateUpdated
    }

    fn handle_loaded(&self, state: &mut AppState, result: Result<Vec<Account>, String>) -> (r: HandlerResult)
        requires
            result matches Ok(accounts) ==> accounts_known(accounts@),
        ensures
            provider_outcome(*old(state), *final(state), ProviderMessage::Loaded(result), r),
    {
        state.data.provider_page.is_loading = false;
        match result {
            Ok(accounts) => {
                let ghost src = accounts@;
                let mut rest = accounts;
                let mut providers: Vec<DomainProvider> = Vec::new();
                let n = rest.len();
                let mut i: usize = 0;
                while i < n
                    invariant
                        n == src.len(),
                        i <= n,
                        accounts_known(src),
                        rest@ == src.subrange(i as int, n as int),
                        providers@.len() == i,
                        forall|j: int| 0 <= j < i ==> provider_of_account(#[trigger] src[j], providers@[j]),
                    decreases n - i,
                {
                    let a = rest.remove(0);
                    proof {
                        assert(a == src[i as int]);
                        assert(rest@ =~= src.subrange(i + 1, n as int));
                    }
                    providers.push(DomainProvider::from_account(a));
                    i = i + 1;
                }
                state.data.provider_page.providers = providers;
            },
            Err(e) => {
                let mut m = owned("加载服务商失败: ");
                push_str(&mut m, e.as_str());
                state.ui.show_toast(m);
            },
        }
        HandlerResult::StateUpdated
    }

    /// What a credential check of the form needs: its provider kind and its
    /// credentials, each reported when missing (the kind first).
    pub fn credential_check_inputs(form: &AddDomainProviderForm) -> (r: Result<(DnsProvider, Credential), String>)
        ensures
            match (form.provider, form.credential) {
                (Some(p), Some(c)) => r matches Ok((q, d)) && q == p && d@ == c@,
                (Some(_), None) => r matches Err(e) && e@ == "凭证信息未提供"@,
                (None, _) => r matches Err(e) && e@ == "提供商类型未选择"@,
            },
    {
        let p = match form.provider {
            Some(p) => p,
            None => return Err(owned("提供商类型未选择")),
        };
        match &form.credential {
            Some(c) => Ok((p, c.duplicate())),
            None => Err(owned("凭证信息未提供")),
        }
    }

    /// The outcome of a credential check that may have run out of time:
    /// `None` when the time ran out, which is reported; else the check's own
    /// outcome.
    pub fn timed_check_answer(outcome: Option<Result<(), String>>) -> (r: Result<(), String>)
        ensures
            match outcome {
                Some(o) => r == o,
                None => r matches Err(e) && e@ == "验证超时，请检查网络连接"@,
            },
    {
        match outcome {
            Some(o) => o,
            None => Err(owned("验证超时，请检查网络连接")),
        }
    }

    /// The message a finished credential check is answered with.
    pub fn verification_answer(result: Result<(), String>) -> (m: ProviderMessage)
        ensures
            verification_answer_spec(result, m),
    {
        match result {
            Ok(()) => ProviderMessage::VerificationStatusChanged(VerificationStatus::Success),
            Err(e) => ProviderMessage::VerificationStatusChanged(VerificationStatus::Failed(e)),
        }
    }

    #[verifier::rlimit(30)]
    fn handle_page(&self, state: &mut AppState, message: ProviderMessage) -> (r: HandlerResult)
        requires
            message is AddFormNameChanged || message is ToggleForm || message is Delete
                || message is CancelDelete || message is ConfirmDelete || message is ProviderChange
                || message is VerificationStatusChanged || message is Load,
        ensures
            provider_outcome(*old(state), *final(state), message, r),
    {
        match message {
            ProviderMessage::AddFormNameChanged(name) => {
                state.data.provider_page.form.provider_name = name;
                HandlerResult::StateUpdated
            },
            ProviderMessage::ToggleForm(visible) => {
                state.data.provider_page.form_visible = visible;
                HandlerResult::StateUpdated
            },
            ProviderMessage::Delete(id) => {
                state.data.provider_page.deleting_provider_id = Some(id);
                HandlerResult::StateUpdated
            },
            ProviderMessage::CancelDelete => {
                state.data.provider_page.deleting_provider_id = None;
                HandlerResult::StateUpdated
            },
            ProviderMessage::ConfirmDelete(id) => {
                state.data.provider_page.deleting_provider_id = None;
                state.ui.is_loading = true;
                HandlerResult::StateUpdatedWithTask(
                    Effect::Emit(MessageCategory::Database(DatabaseMessage::DeleteAccount(id))),
                )
            },
            ProviderMessage::ProviderChange => {
                state.ui.message = owned("托管商配置已更新");
                HandlerResult::StateUpdatedWithTask(Effect::Emit(MessageCategory::Provider(ProviderMessage::Load)))
            },
            ProviderMessage::VerificationStatusChanged(status) => {
                let done = match &status {
                    VerificationStatus::Success => true,
                    VerificationStatus::Failed(_) => true,
                    _ => false,
                };
                state.data.provider_page.form.verification_status = status;
                if done {
                    state.ui.is_loading = false;
                }
                HandlerResult::StateUpdated
            },
            _ => {
                state.data.provider_page.is_loading = true;
                match state.database {
                    Some(conn) => HandlerResult::StateUpdatedWithTask(Effect::ListAccounts { conn }),
                    None => {
                        state.ui.show_toast(owned("数据库未连接"));
                        state.data.provider_page.is_loading = false;
                        HandlerResult::StateUpdated
                    },
                }
            },
        }
    }

    /// Handles one hosting-account message, as `provider_outcome` says.
    pub fn handle(&self, state: &mut AppState, message: ProviderMessage) -> (r: HandlerResult)
        requires
            provider_message_ok(message),
        ensures
            provider_outcome(*old(state), *final(state), message, r),
    {
        match message {
            ProviderMessage::Selected(provider_type) => self.handle_add_form_provider_changed(state, provider_type),
            ProviderMessage::AddFormCredentialChanged(c) => self.handle_add_form_credential_changed(state, c),
            ProviderMessage::ValidateCredential => self.handle_validate_credential(state),
            ProviderMessage::AddCredential => self.handle_add_credential(state),
            ProviderMessage::Edit(id) => self.handle_edit_request(state, id),
            ProviderMessage::Loaded(result) => self.handle_loaded(state, result),
            ProviderMessage::AddFormNameChanged(_) | ProviderMessage::ToggleForm(_) | ProviderMessage::Delete(_)
            | ProviderMessage::CancelDelete | ProviderMessage::ConfirmDelete(_) | ProviderMessage::ProviderChange
            | ProviderMessage::VerificationStatusChanged(_) | ProviderMessage::Load => self.handle_page(state, message),
            _ => HandlerResult::Nothing,
        }
    }
}

fn copy_form(f: &AddDomainProviderForm) -> (r: AddDomainProviderForm)
    ensures
        r == *f,
{
    AddDomainProviderForm {
        provider_name: f.provider_name.clone(),
        provider: f.provider,
        credential: match &f.credential {
            Some(c) => Some(c.duplicate()),
            None => None,
        },
        verification_status: match &f.verification_status {
            VerificationStatus::Unverified => VerificationStatus::Unverified,
            VerificationStatus::Pending => VerificationStatus::Pending,
            VerificationStatus::Success => VerificationStatus::Success,
            VerificationStatus::Failed(e) => VerificationStatus::Failed(e.clone()),
        },
    }
}

/// The name a new account gets is never one that an account already has,
/// and every name tried before it is taken.
pub proof fn lemma_unique_name_is_free(name: Seq<char>, base: Seq<char>, names: Seq<Seq<char>>)
    requires
        is_first_free_name(name, base, names),
    ensures
        !names.contains(name),
        name == base || names.contains(base),
{
    let k = choose|k: nat|
        k <= names.len() && name == #[trigger] candidate_name(base, k) && !names.contains(name) && forall|j: nat|
            j < k ==> names.contains(#[trigger] candidate_name(base, j));
    if k > 0 {
        assert(names.contains(candidate_name(base, 0)));
    }
}

} // verus!
