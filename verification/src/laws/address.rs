//! Laws of addresses.
use vstd::prelude::*;
use crate::address::{address_answered, address_decrypted, address_inserted, address_updated, addresses_decrypted, find_payment_address, insert_payment_address, update_payment_address, Address, AddressChange, AddressInterface, AddressNew, HsetnxReply, MerchantStorageScheme, MockDb, StorageError, StorePlace, StoreStep};

verus! {

/// The first address of an id is found, whoever's payment it is looked for; where there is none
/// it is not found.
pub proof fn law_address_is_found_by_its_id(
    store: &MockDb,
    merchant_id: &str,
    payment_id: &str,
    address_id: &str,
    i: int,
    res: Result<Address, StorageError>,
    for_payment: Result<Address, StorageError>,
)
    requires
        call_ensures(
            <MockDb as AddressInterface>::find_address_by_address_id,
            (store, address_id),
            res,
        ),
        call_ensures(
            <MockDb as AddressInterface>::find_address_by_merchant_id_payment_id_address_id,
            (store, merchant_id, payment_id, address_id),
            for_payment,
        ),
        0 <= i <= store.addresses@.len(),
        forall|j: int| 0 <= j < i ==> (#[trigger] store.addresses@[j]).address_id@ != address_id@,
        i < store.addresses@.len() ==> store.addresses@[i].address_id@ == address_id@,
    ensures
        i < store.addresses@.len() ==> res is Ok && res->Ok_0 == store.addresses@[i],
        i == store.addresses@.len() ==> res is Err && res->Err_0 is ValueNotFound
            && res->Err_0->ValueNotFound_0@ == "address not found"@,
        for_payment is Ok <==> res is Ok,
        for_payment is Ok ==> for_payment->Ok_0 == res->Ok_0,
        for_payment is Err ==> for_payment->Err_0 is ValueNotFound
            && for_payment->Err_0->ValueNotFound_0@ == "address not found"@,
{
    let key = crate::address::KeyText::Address { address_id: address_id@ };
    crate::address::law_position_is_the_first(store.addresses@, key);
    if i < store.addresses@.len() {
        assert(key.fits(store.addresses@[i]));
    }
}

/// An address is a customer's where it names both the customer and their merchant.
pub proof fn law_customers_addresses_name_both(
    address: Address,
    customer_id: Seq<char>,
    merchant_id: Seq<char>,
)
    ensures
        crate::address::is_of_customer(address, customer_id, merchant_id) ==> (address.customer_id
            matches Some(named) && named@ == customer_id),
        crate::address::is_of_customer(address, customer_id, merchant_id) ==> address.merchant_id@
            == merchant_id,
        address.merchant_id@ == merchant_id ==> (address.customer_id matches Some(named) ==> (
        named@ == customer_id ==> crate::address::is_of_customer(
            address,
            customer_id,
            merchant_id,
        ))),
{
}

/// An address that is added stands behind those that were there, is given back, and is found
/// under its id where no earlier one has it; the others stay.
pub proof fn law_added_address_stands_last(
    for_payments: &mut MockDb,
    for_customers: &mut MockDb,
    address: Address,
    of_payments: Result<Address, StorageError>,
    of_customers: Result<Address, StorageError>,
)
    requires
        call_ensures(
            <MockDb as AddressInterface>::insert_address_for_payments,
            (for_payments, address),
            of_payments,
        ),
        call_ensures(
            <MockDb as AddressInterface>::insert_address_for_customers,
            (for_customers, address),
            of_customers,
        ),
    ensures
        of_payments is Ok && of_payments->Ok_0 == address,
        of_customers is Ok && of_customers->Ok_0 == address,
        final(for_payments).addresses@.len() == old(for_payments).addresses@.len() + 1,
        final(for_payments).addresses@.last() == address,
        final(for_payments).addresses@.drop_last() == old(for_payments).addresses@,
        final(for_customers).addresses@.len() == old(for_customers).addresses@.len() + 1,
        final(for_customers).addresses@.last() == address,
        final(for_customers).addresses@.drop_last() == old(for_customers).addresses@,
{
    assert(old(for_payments).addresses@.push(address).drop_last() == old(for_payments).addresses@);
    assert(old(for_customers).addresses@.push(address).drop_last()
        == old(for_customers).addresses@);
}

/// A new store holds nothing.
pub proof fn law_new_store_is_empty(res: MockDb)
    requires
        call_ensures(MockDb::new, (), res),
    ensures
        res.addresses@.len() == 0,
{
}

/// Whether a place of the store is that of an address of a payment.
pub open spec fn is_place(
    place: StorePlace,
    merchant_id: Seq<char>,
    payment_id: Seq<char>,
    address_id: Seq<char>,
) -> bool {
    &&& place.key.merchant_id@ == merchant_id
    &&& place.key.payment_id@ == payment_id
    &&& place.field@ == "add_"@ + address_id
}

/// The address of a payment is found in the database alone, or first at its place in the store, as
/// the merchant's records are kept.
pub proof fn law_payment_address_is_found_where_kept(
    scheme: MerchantStorageScheme,
    merchant_id: &str,
    payment_id: &str,
    address_id: &str,
    res: StoreStep,
)
    requires
        call_ensures(find_payment_address, (scheme, merchant_id, payment_id, address_id), res),
    ensures
        res is FindInDatabase <==> scheme is PostgresOnly,
        res is FindInStore <==> scheme is RedisKv,
        res is FindInStore ==> is_place(
            res->FindInStore_0,
            merchant_id@,
            payment_id@,
            address_id@,
        ),
{
}

/// A new address is added where the merchant's records are kept, as it is; in the store it stands
/// at the place at which it is looked for, and tells how it is kept. What could not be encrypted is
/// not stored.
pub proof fn law_new_address_is_stored(
    encrypted: Option<AddressNew>,
    payment_id: &str,
    scheme: MerchantStorageScheme,
    scheme_name: String,
    res: StoreStep,
)
    requires
        call_ensures(insert_payment_address, (encrypted, payment_id, scheme, scheme_name), res),
    ensures
        encrypted is None <==> res is Fail,
        res is Fail ==> res->Fail_0 is EncryptionError,
        encrypted is Some && scheme is PostgresOnly ==> res is InsertIntoDatabase
            && res->InsertIntoDatabase_0 == encrypted->0,
        encrypted is Some && scheme is RedisKv ==> {
            let new = encrypted->0;
            let record = res->InsertIntoStore_record;
            &&& res is InsertIntoStore
            &&& is_place(
                res->InsertIntoStore_place,
                new.merchant_id@,
                payment_id@,
                new.address_id@,
            )
            &&& res->InsertIntoStore_address == new
            &&& record.address_id == new.address_id
            &&& record.city == new.city
            &&& record.country == new.country
            &&& record.line1 == new.line1
            &&& record.line2 == new.line2
            &&& record.line3 == new.line3
            &&& record.state == new.state
            &&& record.zip == new.zip
            &&& record.first_name == new.first_name
            &&& record.last_name == new.last_name
            &&& record.phone_number == new.phone_number
            &&& record.country_code == new.country_code
            &&& record.created_at == new.created_at
            &&& record.modified_at == new.modified_at
            &&& record.customer_id == new.customer_id
            &&& record.merchant_id == new.merchant_id
            &&& record.payment_id == new.payment_id
            &&& record.email == new.email
            &&& record.updated_by == scheme_name
        },
{
}

/// An address is changed where the merchant's records are kept; in the store the changed one
/// stands at its place, and the one before is kept for the database.
pub proof fn law_changed_address_is_stored<U: AddressChange>(
    encrypted: Option<Address>,
    payment_id: &str,
    scheme: MerchantStorageScheme,
    change: U,
    res: StoreStep,
)
    requires
        call_ensures(
            update_payment_address::<U>,
            (encrypted, payment_id, scheme, change),
            res,
        ),
    ensures
        encrypted is None <==> res is Fail,
        res is Fail ==> res->Fail_0 is EncryptionError,
        encrypted is Some && scheme is PostgresOnly ==> res is UpdateInDatabase
            && res->UpdateInDatabase_0 == encrypted->0,
        encrypted is Some && scheme is RedisKv ==> {
            &&& res is UpdateInStore
            &&& is_place(
                res->UpdateInStore_place,
                encrypted->0.merchant_id@,
                payment_id@,
                encrypted->0.address_id@,
            )
            &&& res->before == encrypted->0
            &&& call_ensures(
                U::create_address,
                (change, encrypted->0),
                res->UpdateInStore_record,
            )
        },
{
}

/// What was read or stored is decrypted and given back; what was not is an error. An address that
/// was there already is told by its id.
pub proof fn law_stored_addresses_are_given_back(
    answer: Result<Address, StorageError>,
    record: Address,
    reply: Option<HsetnxReply>,
    stored: bool,
    answered: StoreStep,
    inserted: StoreStep,
    updated: StoreStep,
)
    requires
        call_ensures(address_answered, (answer,), answered),
        call_ensures(address_inserted, (record, reply), inserted),
        call_ensures(address_updated, (record, stored), updated),
    ensures
        answer matches Ok(address) ==> answered is Decrypt && answered->Decrypt_0 == address,
        answer matches Err(error) ==> answered is Fail && answered->Fail_0 == error,
        inserted is Decrypt <==> reply == Some(HsetnxReply::KeySet),
        inserted is Decrypt ==> inserted->Decrypt_0 == record,
        reply == Some(HsetnxReply::KeyNotSet) ==> inserted is Fail && inserted->Fail_0 == (
        StorageError::DuplicateValue { entity: "address", key: Some(record.address_id) }),
        reply is None ==> inserted is Fail && inserted->Fail_0 is KVError,
        stored ==> updated is Decrypt && updated->Decrypt_0 == record,
        !stored ==> updated is Fail && updated->Fail_0 is KVError,
{
}

/// Decrypted addresses are given back, all of them and in order; where one could not be decrypted
/// none is.
pub proof fn law_decrypted_addresses_are_given_back<D>(
    one: Option<D>,
    several: Vec<Option<D>>,
    of_one: Result<D, StorageError>,
    of_several: Result<Vec<D>, StorageError>,
)
    requires
        call_ensures(address_decrypted::<D>, (one,), of_one),
        call_ensures(addresses_decrypted::<D>, (several,), of_several),
    ensures
        of_one is Ok <==> one is Some,
        of_one is Ok ==> one == Some(of_one->Ok_0),
        of_one is Err ==> of_one->Err_0 is DecryptionError,
        of_several is Ok <==> forall|i: int|
            0 <= i < several@.len() ==> (#[trigger] several@[i]) is Some,
        of_several is Ok ==> of_several->Ok_0@.len() == several@.len(),
        of_several is Ok ==> forall|i: int|
            0 <= i < several@.len() ==> (#[trigger] several@[i]) == Some(of_several->Ok_0@[i]),
        of_several is Err ==> of_several->Err_0 is DecryptionError,
{
    if of_several is Ok {
        assert forall|i: int| 0 <= i < several@.len() implies (#[trigger] several@[i]) == Some(
            of_several->Ok_0@[i],
        ) by {
            let told = of_several->Ok_0@[i];
        }
    }
}

} // verus!
