//! Laws of the routes of payouts, and of cancelling.
use vstd::prelude::*;
use crate::api::connector_step::CallConnectorAction;
use crate::cancel_flow::{build_flow_specific_connector_request, needs_connector_request};
use crate::payouts::{listed_profiles, merchant_context, payouts_accounts, payouts_cancel, payouts_confirm, payouts_create, payouts_fulfill, payouts_list, payouts_list_available_filters_for_merchant, payouts_list_available_filters_for_profile, payouts_list_by_filter, payouts_list_by_filter_profile, payouts_list_profile, payouts_retrieve, payouts_update, MerchantContext, PayoutActionRequest, PayoutCreateRequest, PayoutRetrieveBody, PayoutRetrieveRequest, PayoutRoute, Permission, ProfileScope, RouteAuth, RouteCall, RouteRules};

verus! {

/// Each route is recorded as what it does, and is served by what does it.
pub proof fn law_routes_do_what_they_say(route: &PayoutRoute, res: RouteRules)
    requires
        call_ensures(PayoutRoute::rules, (route,), res),
    ensures
        res.flow is PayoutsCreate <==> *route is Create,
        res.flow is PayoutsRetrieve <==> *route is Retrieve,
        res.flow is PayoutsUpdate <==> *route is Update,
        res.flow is PayoutsConfirm <==> *route is Confirm,
        res.flow is PayoutsCancel <==> *route is Cancel,
        res.flow is PayoutsFulfill <==> *route is Fulfill,
        res.flow is PayoutsList <==> *route is List || *route is ListProfile || *route
            is ListByFilter || *route is ListByFilterProfile,
        res.flow is PayoutsFilter <==> *route is AvailableFiltersForMerchant || *route
            is AvailableFiltersForProfile,
        res.core is Create <==> *route is Create,
        res.core is Retrieve <==> *route is Retrieve,
        res.core is Update <==> *route is Update,
        res.core is Confirm <==> *route is Confirm,
        res.core is Cancel <==> *route is Cancel,
        res.core is Fulfill <==> *route is Fulfill,
        res.core is List <==> *route is List || *route is ListProfile,
        res.core is FilteredList <==> *route is ListByFilter || *route is ListByFilterProfile,
        res.core is AvailableFilters <==> *route is AvailableFiltersForMerchant || *route
            is AvailableFiltersForProfile,
        res.lock is NotApplicable,
{
}

/// Who may call a route: whoever holds the client secret confirms; merchants by their own keys do
/// everything else, and users of the dashboard read with them, those of a profile what is the
/// profile's.
pub proof fn law_routes_are_open_to_whom_they_should(route: &PayoutRoute, res: RouteRules)
    requires
        call_ensures(PayoutRoute::rules, (route,), res),
    ensures
        res.auth is ClientSecret <==> *route is Confirm,
        res.auth is ApiKey <==> *route is Create || *route is Update || *route is Cancel || *route
            is Fulfill,
        res.auth matches RouteAuth::ApiKey(key) ==> !key.is_connected_allowed
            && !key.is_platform_allowed,
        res.auth matches RouteAuth::ApiKeyOrUser(key, permission) ==> {
            &&& !key.is_connected_allowed
            &&& !key.is_platform_allowed
            &&& permission is MerchantPayoutRead <==> *route is List || *route is ListByFilter
                || *route is AvailableFiltersForMerchant
            &&& permission is ProfilePayoutRead <==> *route is Retrieve || *route is ListProfile
                || *route is ListByFilterProfile || *route is AvailableFiltersForProfile
        },
        res.scope is CallersProfile <==> *route is Retrieve || *route is ListProfile || *route
            is ListByFilterProfile || *route is AvailableFiltersForProfile,
{
}

/// A call hands on what was sent, under the rules of its own route: the payout that the address
/// names is the one that is changed or confirmed, and confirming is confirming.
pub proof fn law_payout_changes_are_handed_on<X>(
    payload: PayoutCreateRequest<X>,
    payout_id: String,
    created: RouteCall<PayoutCreateRequest<X>>,
    updated: RouteCall<PayoutCreateRequest<X>>,
    confirmed: RouteCall<PayoutCreateRequest<X>>,
)
    requires
        call_ensures(payouts_create::<X>, (payload,), created),
        call_ensures(payouts_update::<X>, (payout_id, payload), updated),
        call_ensures(payouts_confirm::<X>, (payload, payout_id), confirmed),
    ensures
        created.payload == payload,
        created.rules.core is Create,
        updated.rules.core is Update,
        updated.payload.payout_id == Some(payout_id),
        updated.payload.confirm == payload.confirm,
        updated.payload.details == payload.details,
        confirmed.rules.core is Confirm,
        confirmed.rules.auth is ClientSecret,
        confirmed.payload.payout_id == Some(payout_id),
        confirmed.payload.confirm == Some(true),
        confirmed.payload.details == payload.details,
{
}

/// A payout is shown, cancelled or fulfilled by the id that the address names.
pub proof fn law_payout_actions_name_the_payout(
    payout_id: String,
    query: PayoutRetrieveBody,
    shown: RouteCall<PayoutRetrieveRequest>,
    cancelled: RouteCall<PayoutActionRequest>,
    fulfilled: RouteCall<PayoutActionRequest>,
    accounts: &'static str,
)
    requires
        call_ensures(payouts_retrieve, (payout_id, query), shown),
        call_ensures(payouts_cancel, (payout_id,), cancelled),
        call_ensures(payouts_fulfill, (payout_id,), fulfilled),
        call_ensures(payouts_accounts, (), accounts),
    ensures
        shown.rules.core is Retrieve,
        shown.payload.payout_id == payout_id,
        shown.payload.force_sync == query.force_sync,
        shown.payload.merchant_id == query.merchant_id,
        cancelled.rules.core is Cancel,
        cancelled.payload.payout_id == payout_id,
        fulfilled.rules.core is Fulfill,
        fulfilled.payload.payout_id == payout_id,
        accounts == "accounts",
{
}

/// A list is asked for with what was sent, of the merchant or of the caller's profile as the route
/// says.
pub proof fn law_payout_lists_are_handed_on<C>(
    payload: C,
    list: RouteCall<C>,
    of_profile: RouteCall<C>,
    filtered: RouteCall<C>,
    filtered_of_profile: RouteCall<C>,
    filters: RouteCall<C>,
    filters_of_profile: RouteCall<C>,
)
    requires
        call_ensures(payouts_list::<C>, (payload,), list),
        call_ensures(payouts_list_profile::<C>, (payload,), of_profile),
        call_ensures(payouts_list_by_filter::<C>, (payload,), filtered),
        call_ensures(payouts_list_by_filter_profile::<C>, (payload,), filtered_of_profile),
        call_ensures(payouts_list_available_filters_for_merchant::<C>, (payload,), filters),
        call_ensures(
            payouts_list_available_filters_for_profile::<C>,
            (payload,),
            filters_of_profile,
        ),
    ensures
        list.payload == payload && list.rules.core is List && list.rules.scope is Merchant,
        of_profile.payload == payload && of_profile.rules.core is List && of_profile.rules.scope
            is CallersProfile,
        filtered.payload == payload && filtered.rules.core is FilteredList && filtered.rules.scope
            is Merchant,
        filtered_of_profile.payload == payload && filtered_of_profile.rules.core is FilteredList
            && filtered_of_profile.rules.scope is CallersProfile,
        filters.payload == payload && filters.rules.core is AvailableFilters && filters.rules.scope
            is Merchant,
        filters_of_profile.payload == payload && filters_of_profile.rules.core is AvailableFilters
            && filters_of_profile.rules.scope is CallersProfile,
        list.rules.auth is ApiKeyOrUser && list.rules.auth->ApiKeyOrUser_1 is MerchantPayoutRead,
        of_profile.rules.auth is ApiKeyOrUser && of_profile.rules.auth->ApiKeyOrUser_1
            is ProfilePayoutRead,
{
}

/// A list is limited to the caller's profile exactly where that is its scope and the caller has
/// one.
pub proof fn law_lists_are_limited_to_the_profile(
    scope: ProfileScope,
    profile_id: Option<String>,
    res: Option<Vec<String>>,
)
    requires
        call_ensures(listed_profiles, (scope, profile_id), res),
    ensures
        res is Some <==> scope is CallersProfile && profile_id is Some,
        res matches Some(list) ==> list@.len() == 1 && list@[0] == profile_id->0,
{
}

/// A call is served for the merchant whose account and keys were found.
pub proof fn law_calls_are_served_for_their_merchant<A, K>(
    account: A,
    keys: K,
    res: MerchantContext<A, K>,
)
    requires
        call_ensures(merchant_context::<A, K>, (account, keys), res),
    ensures
        res is NormalMerchant,
        res->NormalMerchant_0.0 == account,
        res->NormalMerchant_0.1 == keys,
{
}

/// A cancellation is sent to the connector exactly where the connector is to be called: then it is
/// what the connector's code made, or its error. The payment goes on in every other case.
pub proof fn law_cancellation_is_sent_where_asked<R, E>(
    action: &CallConnectorAction,
    built: Result<Option<R>, E>,
    needed: bool,
    res: Result<(Option<R>, bool), E>,
)
    requires
        call_ensures(needs_connector_request, (action,), needed),
        call_ensures(build_flow_specific_connector_request::<R, E>, (action, built), res),
    ensures
        needed <==> *action is Trigger,
        res is Err <==> needed && built is Err,
        res is Err ==> res->Err_0 == built->Err_0,
        res is Ok ==> res->Ok_0.1,
        res is Ok && needed ==> res->Ok_0.0 == built->Ok_0,
        res is Ok && !needed ==> res->Ok_0.0 is None,
{
}

} // verus!
