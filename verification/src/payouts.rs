//! The routes of payouts: what each hands to the server, and who may call it.
use vstd::prelude::*;

verus! {

/// What a route does, for the record.
#[derive(Clone, Copy, Debug, PartialEq, Eq, Structural)]
pub enum Flow {
    PayoutsCreate,
    PayoutsRetrieve,
    PayoutsUpdate,
    PayoutsConfirm,
    PayoutsCancel,
    PayoutsFulfill,
    PayoutsList,
    PayoutsFilter,
    PayoutsAccounts,
}

/// What a user of the dashboard may do.
#[derive(Clone, Copy, Debug, PartialEq, Eq, Structural)]
pub enum Permission {
    MerchantPayoutRead,
    ProfilePayoutRead,
}

/// How a call by API key is checked.
#[derive(Clone, Copy, Debug, PartialEq, Eq, Structural)]
pub struct ApiKeyAuth {
    pub is_connected_allowed: bool,
    pub is_platform_allowed: bool,
}

/// Who may call a route.
#[derive(Clone, Copy, Debug, PartialEq, Eq, Structural)]
pub enum RouteAuth {
    /// Merchants, by API key.
    ApiKey(ApiKeyAuth),
    /// Merchants, by API key, and users of the dashboard who may do this.
    ApiKeyOrUser(ApiKeyAuth, Permission),
    /// As the payout's client secret in the request decides.
    ClientSecret,
}

/// Whether a call takes a lock.
#[derive(Clone, Copy, Debug, PartialEq, Eq, Structural)]
pub enum LockAction {
    NotApplicable,
}

/// What serves a call.
#[derive(Clone, Copy, Debug, PartialEq, Eq, Structural)]
pub enum PayoutCore {
    Create,
    Retrieve,
    Update,
    Confirm,
    Cancel,
    Fulfill,
    List,
    FilteredList,
    AvailableFilters,
}

/// The profiles that a call concerns.
#[derive(Clone, Copy, Debug, PartialEq, Eq, Structural)]
pub enum ProfileScope {
    /// Those of the merchant.
    Merchant,
    /// The one that the caller belongs to.
    CallersProfile,
}

/// The rules of a route.
#[derive(Clone, Copy, Debug, PartialEq, Eq, Structural)]
pub struct RouteRules {
    pub flow: Flow,
    pub auth: RouteAuth,
    pub lock: LockAction,
    pub core: PayoutCore,
    pub scope: ProfileScope,
}

/// A route of payouts.
#[derive(Clone, Copy, Debug, PartialEq, Eq, Structural)]
pub enum PayoutRoute {
    Create,
    Retrieve,
    Update,
    Confirm,
    Cancel,
    Fulfill,
    List,
    ListProfile,
    ListByFilter,
    ListByFilterProfile,
    AvailableFiltersForMerchant,
    AvailableFiltersForProfile,
}

/// Calls by API key, of the merchant's own key only.
pub open spec fn own_key() -> ApiKeyAuth {
    ApiKeyAuth { is_connected_allowed: false, is_platform_allowed: false }
}

/// What a route is for.
pub open spec fn flow_of(route: PayoutRoute) -> Flow {
    match route {
        PayoutRoute::Create => Flow::PayoutsCreate,
        PayoutRoute::Retrieve => Flow::PayoutsRetrieve,
        PayoutRoute::Update => Flow::PayoutsUpdate,
        PayoutRoute::Confirm => Flow::PayoutsConfirm,
        PayoutRoute::Cancel => Flow::PayoutsCancel,
        PayoutRoute::Fulfill => Flow::PayoutsFulfill,
        PayoutRoute::List
        | PayoutRoute::ListProfile
        | PayoutRoute::ListByFilter
        | PayoutRoute::ListByFilterProfile => Flow::PayoutsList,
        PayoutRoute::AvailableFiltersForMerchant
        | PayoutRoute::AvailableFiltersForProfile => Flow::PayoutsFilter,
    }
}

/// What serves a route.
pub open spec fn core_of(route: PayoutRoute) -> PayoutCore {
    match route {
        PayoutRoute::Create => PayoutCore::Create,
        PayoutRoute::Retrieve => PayoutCore::Retrieve,
        PayoutRoute::Update => PayoutCore::Update,
        PayoutRoute::Confirm => PayoutCore::Confirm,
        PayoutRoute::Cancel => PayoutCore::Cancel,
        PayoutRoute::Fulfill => PayoutCore::Fulfill,
        PayoutRoute::List | PayoutRoute::ListProfile => PayoutCore::List,
        PayoutRoute::ListByFilter | PayoutRoute::ListByFilterProfile => PayoutCore::FilteredList,
        PayoutRoute::AvailableFiltersForMerchant
        | PayoutRoute::AvailableFiltersForProfile => PayoutCore::AvailableFilters,
    }
}

/// Who may call a route.
pub open spec fn auth_of(route: PayoutRoute) -> RouteAuth {
    match route {
        PayoutRoute::Create
        | PayoutRoute::Update
        | PayoutRoute::Cancel
        | PayoutRoute::Fulfill => RouteAuth::ApiKey(own_key()),
        PayoutRoute::Confirm => RouteAuth::ClientSecret,
        PayoutRoute::List
        | PayoutRoute::ListByFilter
        | PayoutRoute::AvailableFiltersForMerchant => RouteAuth::ApiKeyOrUser(
            own_key(),
            Permission::MerchantPayoutRead,
        ),
        PayoutRoute::Retrieve
        | PayoutRoute::ListProfile
        | PayoutRoute::ListByFilterProfile
        | PayoutRoute::AvailableFiltersForProfile => RouteAuth::ApiKeyOrUser(
            own_key(),
            Permission::ProfilePayoutRead,
        ),
    }
}

/// The profiles that a route concerns.
pub open spec fn scope_of(route: PayoutRoute) -> ProfileScope {
    match route {
        PayoutRoute::Retrieve
        | PayoutRoute::ListProfile
        | PayoutRoute::ListByFilterProfile
        | PayoutRoute::AvailableFiltersForProfile => ProfileScope::CallersProfile,
        _ => ProfileScope::Merchant,
    }
}

/// The rules of a route.
pub open spec fn rules_of(route: PayoutRoute) -> RouteRules {
    RouteRules {
        flow: flow_of(route),
        auth: auth_of(route),
        lock: LockAction::NotApplicable,
        core: core_of(route),
        scope: scope_of(route),
    }
}

impl PayoutRoute {
    /// The rules of the route.
    pub fn rules(&self) -> (res: RouteRules)
        ensures
            res == rules_of(*self),
    {
        let key = ApiKeyAuth { is_connected_allowed: false, is_platform_allowed: false };
        let by_key = RouteAuth::ApiKey(key);
        let by_merchant = RouteAuth::ApiKeyOrUser(key, Permission::MerchantPayoutRead);
        let by_profile = RouteAuth::ApiKeyOrUser(key, Permission::ProfilePayoutRead);
        let merchant = ProfileScope::Merchant;
        let profile = ProfileScope::CallersProfile;
        let (flow, auth, core, scope) = match self {
            PayoutRoute::Create => (Flow::PayoutsCreate, by_key, PayoutCore::Create, merchant),
            PayoutRoute::Retrieve => (
                Flow::PayoutsRetrieve,
                by_profile,
                PayoutCore::Retrieve,
                profile,
            ),
            PayoutRoute::Update => (Flow::PayoutsUpdate, by_key, PayoutCore::Update, merchant),
            PayoutRoute::Confirm => (
                Flow::PayoutsConfirm,
                RouteAuth::ClientSecret,
                PayoutCore::Confirm,
                merchant,
            ),
            PayoutRoute::Cancel => (Flow::PayoutsCancel, by_key, PayoutCore::Cancel, merchant),
            PayoutRoute::Fulfill => (Flow::PayoutsFulfill, by_key, PayoutCore::Fulfill, merchant),
            PayoutRoute::List => (Flow::PayoutsList, by_merchant, PayoutCore::List, merchant),
            PayoutRoute::ListProfile => (Flow::PayoutsList, by_profile, PayoutCore::List, profile),
            PayoutRoute::ListByFilter => (
                Flow::PayoutsList,
                by_merchant,
                PayoutCore::FilteredList,
                merchant,
            ),
            PayoutRoute::ListByFilterProfile => (
                Flow::PayoutsList,
                by_profile,
                PayoutCore::FilteredList,
                profile,
            ),
            PayoutRoute::AvailableFiltersForMerchant => (
                Flow::PayoutsFilter,
                by_merchant,
                PayoutCore::AvailableFilters,
                merchant,
            ),
            PayoutRoute::AvailableFiltersForProfile => (
                Flow::PayoutsFilter,
                by_profile,
                PayoutCore::AvailableFilters,
                profile,
            ),
        };
        RouteRules { flow, auth, lock: LockAction::NotApplicable, core, scope }
    }
}

/// A call of a route: its rules, and what is handed on.
#[derive(Debug, PartialEq, Eq)]
pub struct RouteCall<P> {
    pub rules: RouteRules,
    pub payload: P,
}

/// A payout as it is asked for. `X` is what else is said of it.
#[derive(Debug, PartialEq, Eq)]
pub struct PayoutCreateRequest<X> {
    pub payout_id: Option<String>,
    pub confirm: Option<bool>,
    pub details: X,
}

/// A payout that is to be shown.
#[derive(Debug, PartialEq, Eq)]
pub struct PayoutRetrieveRequest {
    pub payout_id: String,
    pub force_sync: Option<bool>,
    pub merchant_id: Option<String>,
}

/// How a payout is to be shown.
#[derive(Debug, PartialEq, Eq)]
pub struct PayoutRetrieveBody {
    pub force_sync: Option<bool>,
    pub merchant_id: Option<String>,
}

/// A payout that something is to be done to.
#[derive(Debug, PartialEq, Eq)]
pub struct PayoutActionRequest {
    pub payout_id: String,
}

/// A call that makes a payout.
pub fn payouts_create<X>(payload: PayoutCreateRequest<X>) -> (res: RouteCall<
    PayoutCreateRequest<X>,
>)
    ensures
        res == (RouteCall { rules: rules_of(PayoutRoute::Create), payload }),
{
    RouteCall { rules: PayoutRoute::Create.rules(), payload }
}

/// A call that shows a payout.
pub fn payouts_retrieve(payout_id: String, query: PayoutRetrieveBody) -> (res: RouteCall<
    PayoutRetrieveRequest,
>)
    ensures
        res == (RouteCall {
            rules: rules_of(PayoutRoute::Retrieve),
            payload: PayoutRetrieveRequest {
                payout_id,
                force_sync: query.force_sync,
                merchant_id: query.merchant_id,
            },
        }),
{
    RouteCall {
        rules: PayoutRoute::Retrieve.rules(),
        payload: PayoutRetrieveRequest {
            payout_id,
            force_sync: query.force_sync,
            merchant_id: query.merchant_id,
        },
    }
}

/// A call that changes the payout of this id, whatever id the request gives.
pub fn payouts_update<X>(payout_id: String, payload: PayoutCreateRequest<X>) -> (res: RouteCall<
    PayoutCreateRequest<X>,
>)
    ensures
        res == (RouteCall {
            rules: rules_of(PayoutRoute::Update),
            payload: PayoutCreateRequest { payout_id: Some(payout_id), ..payload },
        }),
{
    RouteCall {
        rules: PayoutRoute::Update.rules(),
        payload: PayoutCreateRequest { payout_id: Some(payout_id), ..payload },
    }
}

/// A call that confirms the payout of this id, whatever the request says of that.
pub fn payouts_confirm<X>(payload: PayoutCreateRequest<X>, payout_id: String) -> (res: RouteCall<
    PayoutCreateRequest<X>,
>)
    ensures
        res == (RouteCall {
            rules: rules_of(PayoutRoute::Confirm),
            payload: PayoutCreateRequest {
                payout_id: Some(payout_id),
                confirm: Some(true),
                ..payload
            },
        }),
{
    RouteCall {
        rules: PayoutRoute::Confirm.rules(),
        payload: PayoutCreateRequest {
            payout_id: Some(payout_id),
            confirm: Some(true),
            ..payload
        },
    }
}

/// A call that cancels a payout.
pub fn payouts_cancel(payout_id: String) -> (res: RouteCall<PayoutActionRequest>)
    ensures
        res == (RouteCall {
            rules: rules_of(PayoutRoute::Cancel),
            payload: PayoutActionRequest { payout_id },
        }),
{
    RouteCall { rules: PayoutRoute::Cancel.rules(), payload: PayoutActionRequest { payout_id } }
}

/// A call that fulfils a payout.
pub fn payouts_fulfill(payout_id: String) -> (res: RouteCall<PayoutActionRequest>)
    ensures
        res == (RouteCall {
            rules: rules_of(PayoutRoute::Fulfill),
            payload: PayoutActionRequest { payout_id },
        }),
{
    RouteCall { rules: PayoutRoute::Fulfill.rules(), payload: PayoutActionRequest { payout_id } }
}

/// A call that lists the payouts of a merchant.
pub fn payouts_list<C>(payload: C) -> (res: RouteCall<C>)
    ensures
        res == (RouteCall { rules: rules_of(PayoutRoute::List), payload }),
{
    RouteCall { rules: PayoutRoute::List.rules(), payload }
}

/// A call that lists the payouts of a profile.
pub fn payouts_list_profile<C>(payload: C) -> (res: RouteCall<C>)
    ensures
        res == (RouteCall { rules: rules_of(PayoutRoute::ListProfile), payload }),
{
    RouteCall { rules: PayoutRoute::ListProfile.rules(), payload }
}

/// A call that lists some of the payouts of a merchant.
pub fn payouts_list_by_filter<C>(payload: C) -> (res: RouteCall<C>)
    ensures
        res == (RouteCall { rules: rules_of(PayoutRoute::ListByFilter), payload }),
{
    RouteCall { rules: PayoutRoute::ListByFilter.rules(), payload }
}

/// A call that lists some of the payouts of a profile.
pub fn payouts_list_by_filter_profile<C>(payload: C) -> (res: RouteCall<C>)
    ensures
        res == (RouteCall { rules: rules_of(PayoutRoute::ListByFilterProfile), payload }),
{
    RouteCall { rules: PayoutRoute::ListByFilterProfile.rules(), payload }
}

/// A call that tells what the payouts of a merchant can be picked by.
pub fn payouts_list_available_filters_for_merchant<T>(payload: T) -> (res: RouteCall<T>)
    ensures
        res == (RouteCall { rules: rules_of(PayoutRoute::AvailableFiltersForMerchant), payload }),
{
    RouteCall { rules: PayoutRoute::AvailableFiltersForMerchant.rules(), payload }
}

/// A call that tells what the payouts of a profile can be picked by.
pub fn payouts_list_available_filters_for_profile<T>(payload: T) -> (res: RouteCall<T>)
    ensures
        res == (RouteCall { rules: rules_of(PayoutRoute::AvailableFiltersForProfile), payload }),
{
    RouteCall { rules: PayoutRoute::AvailableFiltersForProfile.rules(), payload }
}

/// What a call for the accounts is answered.
pub fn payouts_accounts() -> (res: &'static str)
    ensures
        res == "accounts",
{
    "accounts"
}

/// The profiles that a list is limited to, given the profile of the caller.
pub fn listed_profiles(scope: ProfileScope, profile_id: Option<String>) -> (res: Option<Vec<String>>)
    ensures
        match (scope, profile_id) {
            (ProfileScope::CallersProfile, Some(id)) => res matches Some(list) && list@ == seq![id],
            _ => res is None,
        },
{
    match scope {
        ProfileScope::Merchant => None,
        ProfileScope::CallersProfile => match profile_id {
            Some(id) => {
                let mut list: Vec<String> = Vec::new();
                list.push(id);
                Some(list)
            },
            None => None,
        },
    }
}

/// Who a call is served for. `A` is the merchant's account, `K` its keys.
#[derive(Debug, PartialEq, Eq)]
pub enum MerchantContext<A, K> {
    NormalMerchant(Box<Context<A, K>>),
}

/// A merchant's account and keys.
#[derive(Debug, PartialEq, Eq)]
pub struct Context<A, K>(pub A, pub K);

/// Who a call is served for, given the caller.
pub fn merchant_context<A, K>(merchant_account: A, key_store: K) -> (res: MerchantContext<A, K>)
    ensures
        res == MerchantContext::NormalMerchant(Box::new(Context(merchant_account, key_store))),
{
    MerchantContext::NormalMerchant(Box::new(Context(merchant_account, key_store)))
}

/// A user who may read the payouts of a profile alone is shown those of that profile alone,
/// and a user who may read those of the merchant is shown all of them.
pub proof fn law_profile_readers_see_their_profile(route: PayoutRoute)
    ensures
        rules_of(route).auth matches RouteAuth::ApiKeyOrUser(_, permission) ==> (permission
            is ProfilePayoutRead <==> rules_of(route).scope is CallersProfile),
{
}

/// Users of the dashboard can read payouts and nothing more.
pub proof fn law_users_only_read(route: PayoutRoute)
    ensures
        rules_of(route).auth is ApiKeyOrUser <==> (rules_of(route).core is Retrieve || rules_of(
            route,
        ).core is List || rules_of(route).core is FilteredList || rules_of(route).core
            is AvailableFilters),
{
}

/// A route that sets how API keys are checked takes neither that of a platform nor that of a
/// merchant connected to one. No route takes a lock.
pub proof fn law_own_keys_only(route: PayoutRoute)
    ensures
        rules_of(route).auth matches RouteAuth::ApiKey(key) ==> key == own_key(),
        rules_of(route).auth matches RouteAuth::ApiKeyOrUser(key, _) ==> key == own_key(),
        rules_of(route).lock is NotApplicable,
{
}

} // verus!
