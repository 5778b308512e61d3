//! Storage of addresses.
use vstd::prelude::*;
use crate::secret::{clone_optional_secret, Secret};
use crate::text::{clone_optional, concat2, same_text};

verus! {

/// Why an address could not be stored or found.
#[derive(Debug, PartialEq, Eq)]
pub enum StorageError {
    ValueNotFound(String),
    DuplicateValue { entity: &'static str, key: Option<String> },
    EncryptionError,
    DecryptionError,
    KVError,
    DatabaseError,
}

/// Where the records of a merchant are kept.
#[derive(Clone, Copy, Debug, PartialEq, Eq, Structural)]
pub enum MerchantStorageScheme {
    PostgresOnly,
    RedisKv,
}

/// The record of an address. What tells of a person is kept encrypted.
#[derive(PartialEq, Eq)]
pub struct Address {
    pub address_id: String,
    pub city: Option<String>,
    pub country: Option<String>,
    pub line1: Option<Secret<String>>,
    pub line2: Option<Secret<String>>,
    pub line3: Option<Secret<String>>,
    pub state: Option<Secret<String>>,
    pub zip: Option<Secret<String>>,
    pub first_name: Option<Secret<String>>,
    pub last_name: Option<Secret<String>>,
    pub phone_number: Option<Secret<String>>,
    pub country_code: Option<String>,
    pub created_at: time::PrimitiveDateTime,
    pub modified_at: time::PrimitiveDateTime,
    pub customer_id: Option<String>,
    pub merchant_id: String,
    pub payment_id: Option<String>,
    pub updated_by: String,
    pub email: Option<Secret<String>>,
}

impl Clone for Address {
    fn clone(&self) -> (res: Self)
        ensures
            res == *self,
    {
        Address {
            address_id: self.address_id.clone(),
            city: clone_optional(&self.city),
            country: clone_optional(&self.country),
            line1: clone_optional_secret(&self.line1),
            line2: clone_optional_secret(&self.line2),
            line3: clone_optional_secret(&self.line3),
            state: clone_optional_secret(&self.state),
            zip: clone_optional_secret(&self.zip),
            first_name: clone_optional_secret(&self.first_name),
            last_name: clone_optional_secret(&self.last_name),
            phone_number: clone_optional_secret(&self.phone_number),
            country_code: clone_optional(&self.country_code),
            created_at: self.created_at,
            modified_at: self.modified_at,
            customer_id: clone_optional(&self.customer_id),
            merchant_id: self.merchant_id.clone(),
            payment_id: clone_optional(&self.payment_id),
            updated_by: self.updated_by.clone(),
            email: clone_optional_secret(&self.email),
        }
    }
}

/// A change of an address.
pub trait AddressChange: Sized {
    /// The address after the change.
    fn create_address(self, source: Address) -> Address;
}

// ---------------------------------------------------------------------------
// Looking an address up
// ---------------------------------------------------------------------------

/// What an address is looked up by.
#[derive(Debug, PartialEq, Eq)]
pub enum AddressKey {
    Address { address_id: String },
    Customer { customer_id: String, merchant_id: String },
}

/// What an address is looked up by, as text.
pub enum KeyText {
    Address { address_id: Seq<char> },
    Customer { customer_id: Seq<char>, merchant_id: Seq<char> },
}

impl KeyText {
    /// Whether an address is one that is looked for.
    pub open spec fn fits(self, address: Address) -> bool {
        match self {
            KeyText::Address { address_id } => address.address_id@ == address_id,
            KeyText::Customer { customer_id, merchant_id } => crate::text::opt_view(
                address.customer_id,
            ) == Some(customer_id) && address.merchant_id@ == merchant_id,
        }
    }
}

impl View for AddressKey {
    type V = KeyText;

    open spec fn view(&self) -> KeyText {
        match *self {
            AddressKey::Address { address_id } => KeyText::Address { address_id: address_id@ },
            AddressKey::Customer { customer_id, merchant_id } => KeyText::Customer {
                customer_id: customer_id@,
                merchant_id: merchant_id@,
            },
        }
    }
}

impl AddressKey {
    fn check(&self, address: &Address) -> (res: bool)
        ensures
            res == self@.fits(*address),
    {
        match self {
            AddressKey::Address { address_id } => same_text(
                address.address_id.as_str(),
                address_id.as_str(),
            ),
            AddressKey::Customer { customer_id, merchant_id } => match &address.customer_id {
                Some(id) => same_text(id.as_str(), customer_id.as_str()) && same_text(
                    address.merchant_id.as_str(),
                    merchant_id.as_str(),
                ),
                None => false,
            },
        }
    }
}

/// Where the first address stands that fits a key, if one does.
pub open spec fn position(addresses: Seq<Address>, key: KeyText) -> Option<int>
    decreases addresses.len(),
{
    if addresses.len() == 0 {
        None
    } else {
        match position(addresses.drop_last(), key) {
            Some(i) => Some(i),
            None => if key.fits(addresses.last()) {
                Some(addresses.len() - 1)
            } else {
                None
            },
        }
    }
}

/// The position is that of an address that fits, and no earlier one does.
pub proof fn law_position_is_the_first(addresses: Seq<Address>, key: KeyText)
    ensures
        match position(addresses, key) {
            Some(i) => {
                &&& 0 <= i < addresses.len()
                &&& key.fits(addresses[i])
                &&& forall|j: int| 0 <= j < i ==> !key.fits(#[trigger] addresses[j])
            },
            None => forall|j: int|
                0 <= j < addresses.len() ==> !key.fits(#[trigger] addresses[j]),
        },
    decreases addresses.len(),
{
    if addresses.len() > 0 {
        let earlier = addresses.drop_last();
        law_position_is_the_first(earlier, key);
        match position(earlier, key) {
            Some(i) => {
                assert forall|j: int| 0 <= j < i implies !key.fits(#[trigger] addresses[j]) by {
                    assert(earlier[j] == addresses[j]);
                }
            },
            None => {
                assert forall|j: int| 0 <= j < addresses.len() - 1 implies !key.fits(
                    #[trigger] addresses[j],
                ) by {
                    assert(earlier[j] == addresses[j]);
                }
            },
        }
    }
}

/// An address that fits, with no earlier one that does, stands at the position.
proof fn lemma_first_is_position(addresses: Seq<Address>, key: KeyText, i: int)
    requires
        0 <= i < addresses.len(),
        key.fits(addresses[i]),
        forall|j: int| 0 <= j < i ==> !key.fits(#[trigger] addresses[j]),
    ensures
        position(addresses, key) == Some(i),
{
    law_position_is_the_first(addresses, key);
}

fn find_position(addresses: &Vec<Address>, key: &AddressKey) -> (res: Option<usize>)
    ensures
        match res {
            Some(i) => i < addresses@.len() && position(addresses@, key@) == Some(i as int),
            None => position(addresses@, key@) is None,
        },
{
    let mut i: usize = 0;
    while i < addresses.len()
        invariant
            i <= addresses@.len(),
            forall|j: int| 0 <= j < i ==> !key@.fits(#[trigger] addresses@[j]),
        decreases addresses@.len() - i,
    {
        if key.check(&addresses[i]) {
            proof {
                lemma_first_is_position(addresses@, key@, i as int);
            }
            return Some(i);
        }
        i = i + 1;
    }
    proof {
        law_position_is_the_first(addresses@, key@);
    }
    None
}

/// Whether a lookup ended as it should: with the first address that fits, or with an error
/// of this text.
pub open spec fn found(
    res: Result<Address, StorageError>,
    addresses: Seq<Address>,
    key: KeyText,
    message: Seq<char>,
) -> bool {
    match position(addresses, key) {
        Some(i) => res == Ok::<Address, StorageError>(addresses[i]),
        None => res matches Err(StorageError::ValueNotFound(text)) && text@ == message,
    }
}

/// Whether a change ended as it should: the first address that fits, and no other, is
/// changed; or else none is and there is an error of this text.
pub open spec fn changed<U: AddressChange>(
    res: Result<Address, StorageError>,
    before: Seq<Address>,
    after: Seq<Address>,
    key: KeyText,
    change: U,
    message: Seq<char>,
) -> bool {
    match position(before, key) {
        Some(i) => {
            &&& res matches Ok(address)
            &&& after == before.update(i, address)
            &&& call_ensures(U::create_address, (change, before[i]), address)
        },
        None => {
            &&& after == before
            &&& res matches Err(StorageError::ValueNotFound(text))
            &&& text@ == message
        },
    }
}

/// Whether an address belongs to a customer of a merchant.
pub open spec fn is_of_customer(
    address: Address,
    customer_id: Seq<char>,
    merchant_id: Seq<char>,
) -> bool {
    &&& address.customer_id is Some
    &&& address.customer_id->0@ == customer_id
    &&& address.merchant_id@ == merchant_id
}

/// A store of addresses.
pub trait AddressInterface {
    /// The addresses, in the order in which they came.
    spec fn addresses(&self) -> Seq<Address>;

    /// Changes the address of an id.
    fn update_address<U: AddressChange>(&mut self, address_id: String, address: U) -> (res: Result<
        Address,
        StorageError,
    >)
        ensures
            changed(
                res,
                old(self).addresses(),
                final(self).addresses(),
                KeyText::Address { address_id: address_id@ },
                address,
                "cannot find address to update"@,
            ),
            res is Err <==> forall|i: int|
                0 <= i < old(self).addresses().len() ==> (
                #[trigger] old(self).addresses()[i]).address_id@ != address_id@,
            res is Err ==> final(self).addresses() == old(self).addresses(),
            res matches Ok(after) ==> exists|i: int|
                {
                    &&& 0 <= i < old(self).addresses().len()
                    &&& (#[trigger] old(self).addresses()[i]).address_id@ == address_id@
                    &&& call_ensures(
                        U::create_address,
                        (address, old(self).addresses()[i]),
                        after,
                    )
                    &&& final(self).addresses() == old(self).addresses().update(i, after)
                },
    ;

    /// Changes the address of a payment.
    fn update_address_for_payments<U: AddressChange>(&mut self, this: &Address, address: U) -> (res:
        Result<Address, StorageError>)
        ensures
            changed(
                res,
                old(self).addresses(),
                final(self).addresses(),
                KeyText::Address { address_id: this.address_id@ },
                address,
                "cannot find address to update"@,
            ),
            res is Err <==> forall|i: int|
                0 <= i < old(self).addresses().len() ==> (
                #[trigger] old(self).addresses()[i]).address_id@ != this.address_id@,
            res is Err ==> final(self).addresses() == old(self).addresses(),
            res matches Ok(after) ==> exists|i: int|
                {
                    &&& 0 <= i < old(self).addresses().len()
                    &&& (#[trigger] old(self).addresses()[i]).address_id@ == this.address_id@
                    &&& call_ensures(
                        U::create_address,
                        (address, old(self).addresses()[i]),
                        after,
                    )
                    &&& final(self).addresses() == old(self).addresses().update(i, after)
                },
    ;

    /// Finds the address of an id.
    fn find_address_by_address_id(&self, address_id: &str) -> (res: Result<Address, StorageError>)
        ensures
            found(
                res,
                self.addresses(),
                KeyText::Address { address_id: address_id@ },
                "address not found"@,
            ),
    ;

    /// Finds the address of an id, for a payment of a merchant.
    fn find_address_by_merchant_id_payment_id_address_id(
        &self,
        merchant_id: &str,
        payment_id: &str,
        address_id: &str,
    ) -> (res: Result<Address, StorageError>)
        ensures
            found(
                res,
                self.addresses(),
                KeyText::Address { address_id: address_id@ },
                "address not found"@,
            ),
    ;

    /// Adds the address of a payment.
    fn insert_address_for_payments(&mut self, address: Address) -> (res: Result<
        Address,
        StorageError,
    >)
        ensures
            final(self).addresses() == old(self).addresses().push(address),
            res == Ok::<Address, StorageError>(address),
    ;

    /// Adds the address of a customer.
    fn insert_address_for_customers(&mut self, address: Address) -> (res: Result<
        Address,
        StorageError,
    >)
        ensures
            final(self).addresses() == old(self).addresses().push(address),
            res == Ok::<Address, StorageError>(address),
    ;

    /// Changes the first address of a customer of a merchant.
    fn update_address_by_merchant_id_customer_id<U: AddressChange>(
        &mut self,
        customer_id: &str,
        merchant_id: &str,
        address: U,
    ) -> (res: Result<Vec<Address>, StorageError>)
        ensures
            match res {
                Ok(list) => list@.len() == 1 && changed(
                    Ok(list@[0]),
                    old(self).addresses(),
                    final(self).addresses(),
                    KeyText::Customer { customer_id: customer_id@, merchant_id: merchant_id@ },
                    address,
                    "address not found"@,
                ),
                Err(error) => changed(
                    Err(error),
                    old(self).addresses(),
                    final(self).addresses(),
                    KeyText::Customer { customer_id: customer_id@, merchant_id: merchant_id@ },
                    address,
                    "address not found"@,
                ),
            },
            res is Err <==> forall|i: int|
                0 <= i < old(self).addresses().len() ==> !is_of_customer(
                    #[trigger] old(self).addresses()[i],
                    customer_id@,
                    merchant_id@,
                ),
            res is Err ==> final(self).addresses() == old(self).addresses(),
            res matches Ok(list) ==> exists|i: int|
                {
                    &&& 0 <= i < old(self).addresses().len()
                    &&& is_of_customer(
                        #[trigger] old(self).addresses()[i],
                        customer_id@,
                        merchant_id@,
                    )
                    &&& call_ensures(
                        U::create_address,
                        (address, old(self).addresses()[i]),
                        list@[0],
                    )
                    &&& final(self).addresses() == old(self).addresses().update(i, list@[0])
                },
    ;
}

/// Addresses that are kept in memory.
pub struct MockDb {
    pub addresses: Vec<Address>,
}

impl MockDb {
    /// A store without addresses.
    pub fn new() -> (res: MockDb)
        ensures
            res.addresses@ == Seq::<Address>::empty(),
    {
        MockDb { addresses: Vec::new() }
    }

    fn find(&self, key: &AddressKey) -> (res: Result<Address, StorageError>)
        ensures
            found(res, self.addresses@, key@, "address not found"@),
    {
        match find_position(&self.addresses, key) {
            Some(i) => Ok(self.addresses[i].clone()),
            None => Err(StorageError::ValueNotFound("address not found".to_string())),
        }
    }

    fn update<U: AddressChange>(&mut self, key: &AddressKey, change: U, message: &str) -> (res: Result<
        Address,
        StorageError,
    >)
        ensures
            changed(res, old(self).addresses@, final(self).addresses@, key@, change, message@),
    {
        match find_position(&self.addresses, key) {
            Some(i) => {
                let updated = change.create_address(self.addresses[i].clone());
                self.addresses.set(i, updated.clone());
                Ok(updated)
            },
            None => Err(StorageError::ValueNotFound(message.to_string())),
        }
    }
}

impl AddressInterface for MockDb {
    open spec fn addresses(&self) -> Seq<Address> {
        self.addresses@
    }

    fn update_address<U: AddressChange>(&mut self, address_id: String, address: U) -> (res: Result<
        Address,
        StorageError,
    >) {
        let key = AddressKey::Address { address_id };
        proof {
            law_position_is_the_first(self.addresses@, key@);
        }
        self.update(&key, address, "cannot find address to update")
    }

    fn update_address_for_payments<U: AddressChange>(&mut self, this: &Address, address: U) -> (res:
        Result<Address, StorageError>) {
        let key = AddressKey::Address { address_id: this.address_id.clone() };
        proof {
            law_position_is_the_first(self.addresses@, key@);
        }
        self.update(&key, address, "cannot find address to update")
    }

    fn find_address_by_address_id(&self, address_id: &str) -> (res: Result<Address, StorageError>) {
        let key = AddressKey::Address { address_id: address_id.to_string() };
        self.find(&key)
    }

    fn find_address_by_merchant_id_payment_id_address_id(
        &self,
        merchant_id: &str,
        payment_id: &str,
        address_id: &str,
    ) -> (res: Result<Address, StorageError>) {
        self.find_address_by_address_id(address_id)
    }

    fn insert_address_for_payments(&mut self, address: Address) -> (res: Result<
        Address,
        StorageError,
    >) {
        self.addresses.push(address.clone());
        Ok(address)
    }

    fn insert_address_for_customers(&mut self, address: Address) -> (res: Result<
        Address,
        StorageError,
    >) {
        self.addresses.push(address.clone());
        Ok(address)
    }

    fn update_address_by_merchant_id_customer_id<U: AddressChange>(
        &mut self,
        customer_id: &str,
        merchant_id: &str,
        address: U,
    ) -> (res: Result<Vec<Address>, StorageError>) {
        let key = AddressKey::Customer {
            customer_id: customer_id.to_string(),
            merchant_id: merchant_id.to_string(),
        };
        proof {
            law_position_is_the_first(self.addresses@, key@);
        }
        let one = self.update(&key, address, "address not found");
        match one {
            Ok(changed) => {
                let mut list: Vec<Address> = Vec::new();
                list.push(changed);
                Ok(list)
            },
            Err(error) => Err(error),
        }
    }
}

/// An address that was added under a new id is found under that id.
pub proof fn law_added_address_is_found(addresses: Seq<Address>, address: Address, key: KeyText)
    requires
        key == (KeyText::Address { address_id: address.address_id@ }),
        position(addresses, key) is None,
    ensures
        position(addresses.push(address), key) == Some(addresses.len() as int),
{
    assert(addresses.push(address).drop_last() == addresses);
}

/// Adding an address leaves every address that was found before where it was found.
pub proof fn law_adding_hides_nothing(addresses: Seq<Address>, address: Address, key: KeyText)
    requires
        position(addresses, key) is Some,
    ensures
        position(addresses.push(address), key) == position(addresses, key),
        position(addresses, key) matches Some(i) ==> addresses.push(address)[i] == addresses[i],
{
    assert(addresses.push(address).drop_last() == addresses);
    law_position_is_the_first(addresses, key);
}

/// An address that was changed, and kept what it is looked up by, is found as changed.
pub proof fn law_changed_address_is_found<U: AddressChange>(
    res: Result<Address, StorageError>,
    before: Seq<Address>,
    after: Seq<Address>,
    key: KeyText,
    change: U,
    message: Seq<char>,
)
    requires
        changed(res, before, after, key, change, message),
        res matches Ok(address) && key.fits(address),
    ensures
        position(after, key) == position(before, key),
        position(after, key) matches Some(i) && res == Ok::<Address, StorageError>(after[i]),
{
    law_position_is_the_first(before, key);
    let i = position(before, key).unwrap();
    assert forall|j: int| 0 <= j < i implies !key.fits(#[trigger] after[j]) by {
        assert(after[j] == before[j]);
    }
    lemma_first_is_position(after, key, i);
}

// ---------------------------------------------------------------------------
// Addresses of payments in a store of keys and values
// ---------------------------------------------------------------------------

/// The part of the store that holds what belongs to a payment.
#[derive(Debug, PartialEq, Eq)]
pub struct PartitionKey {
    pub merchant_id: String,
    pub payment_id: String,
}

/// The field of the store that holds an address.
pub open spec fn address_field(address_id: Seq<char>) -> Seq<char> {
    "add_"@ + address_id
}

/// A place in the store: what belongs to a payment, and a field of that.
pub struct PlaceText {
    pub merchant_id: Seq<char>,
    pub payment_id: Seq<char>,
    pub field: Seq<char>,
}

/// The place in the store of an address of a payment.
pub open spec fn place_of(
    merchant_id: Seq<char>,
    payment_id: Seq<char>,
    address_id: Seq<char>,
) -> PlaceText {
    PlaceText { merchant_id, payment_id, field: address_field(address_id) }
}

/// A place in the store.
#[derive(Debug, PartialEq, Eq)]
pub struct StorePlace {
    pub key: PartitionKey,
    pub field: String,
}

impl View for StorePlace {
    type V = PlaceText;

    open spec fn view(&self) -> PlaceText {
        PlaceText {
            merchant_id: self.key.merchant_id@,
            payment_id: self.key.payment_id@,
            field: self.field@,
        }
    }
}

fn find_place(merchant_id: &str, payment_id: &str, address_id: &str) -> (res: StorePlace)
    ensures
        res@ == place_of(merchant_id@, payment_id@, address_id@),
{
    StorePlace {
        key: PartitionKey {
            merchant_id: merchant_id.to_string(),
            payment_id: payment_id.to_string(),
        },
        field: concat2("add_", address_id),
    }
}

/// A new address, before it is stored.
pub struct AddressNew {
    pub address_id: String,
    pub city: Option<String>,
    pub country: Option<String>,
    pub line1: Option<Secret<String>>,
    pub line2: Option<Secret<String>>,
    pub line3: Option<Secret<String>>,
    pub state: Option<Secret<String>>,
    pub zip: Option<Secret<String>>,
    pub first_name: Option<Secret<String>>,
    pub last_name: Option<Secret<String>>,
    pub phone_number: Option<Secret<String>>,
    pub country_code: Option<String>,
    pub customer_id: Option<String>,
    pub merchant_id: String,
    pub payment_id: Option<String>,
    pub created_at: time::PrimitiveDateTime,
    pub modified_at: time::PrimitiveDateTime,
    pub updated_by: String,
    pub email: Option<Secret<String>>,
}

/// The record of a new address, as the store of that name keeps it.
pub open spec fn record_of(address: AddressNew, storage_scheme: String) -> Address {
    Address {
        address_id: address.address_id,
        city: address.city,
        country: address.country,
        line1: address.line1,
        line2: address.line2,
        line3: address.line3,
        state: address.state,
        zip: address.zip,
        first_name: address.first_name,
        last_name: address.last_name,
        phone_number: address.phone_number,
        country_code: address.country_code,
        created_at: address.created_at,
        modified_at: address.modified_at,
        customer_id: address.customer_id,
        merchant_id: address.merchant_id,
        payment_id: address.payment_id,
        updated_by: storage_scheme,
        email: address.email,
    }
}

/// The record of a new address, as the store of that name keeps it.
fn created_address(address_new: &AddressNew, storage_scheme: String) -> (res: Address)
    ensures
        res == record_of(*address_new, storage_scheme),
{
    Address {
        address_id: address_new.address_id.clone(),
        city: clone_optional(&address_new.city),
        country: clone_optional(&address_new.country),
        line1: clone_optional_secret(&address_new.line1),
        line2: clone_optional_secret(&address_new.line2),
        line3: clone_optional_secret(&address_new.line3),
        state: clone_optional_secret(&address_new.state),
        zip: clone_optional_secret(&address_new.zip),
        first_name: clone_optional_secret(&address_new.first_name),
        last_name: clone_optional_secret(&address_new.last_name),
        phone_number: clone_optional_secret(&address_new.phone_number),
        country_code: clone_optional(&address_new.country_code),
        created_at: address_new.created_at,
        modified_at: address_new.modified_at,
        customer_id: clone_optional(&address_new.customer_id),
        merchant_id: address_new.merchant_id.clone(),
        payment_id: clone_optional(&address_new.payment_id),
        updated_by: storage_scheme,
        email: clone_optional_secret(&address_new.email),
    }
}

/// What the store answers to a field that is to be set only where it is not set yet.
#[derive(Clone, Copy, Debug, PartialEq, Eq, Structural)]
pub enum HsetnxReply {
    KeySet,
    KeyNotSet,
}

/// What to do next with an address of a payment.
pub enum StoreStep {
    /// End with this error.
    Fail(StorageError),
    /// Find the address in the database.
    FindInDatabase,
    /// Find the address at this place of the store, or else in the database.
    FindInStore(StorePlace),
    /// Add the address to the database.
    InsertIntoDatabase(AddressNew),
    /// Set this place of the store to the record unless it is set, for the database to take
    /// the new address over.
    InsertIntoStore { place: StorePlace, record: Address, address: AddressNew },
    /// Change the address in the database.
    UpdateInDatabase(Address),
    /// Set this place of the store to the changed record, for the database to make the same
    /// change to the record as it was.
    UpdateInStore { place: StorePlace, record: Address, before: Address },
    /// Decrypt this record; it is what is given back.
    Decrypt(Address),
}

/// What to do to find an address of a payment.
pub fn find_payment_address(
    storage_scheme: MerchantStorageScheme,
    merchant_id: &str,
    payment_id: &str,
    address_id: &str,
) -> (res: StoreStep)
    ensures
        match storage_scheme {
            MerchantStorageScheme::PostgresOnly => res == StoreStep::FindInDatabase,
            MerchantStorageScheme::RedisKv => res matches StoreStep::FindInStore(place) && place@
                == place_of(merchant_id@, payment_id@, address_id@),
        },
{
    match storage_scheme {
        MerchantStorageScheme::PostgresOnly => StoreStep::FindInDatabase,
        MerchantStorageScheme::RedisKv => StoreStep::FindInStore(
            find_place(merchant_id, payment_id, address_id),
        ),
    }
}

/// What to do to add an address of a payment. `encrypted` is the address after encryption,
/// where that went well, and `scheme_name` the storage scheme as it is recorded.
pub fn insert_payment_address(
    encrypted: Option<AddressNew>,
    payment_id: &str,
    storage_scheme: MerchantStorageScheme,
    scheme_name: String,
) -> (res: StoreStep)
    ensures
        match (encrypted, storage_scheme) {
            (None, _) => res == StoreStep::Fail(StorageError::EncryptionError),
            (Some(new), MerchantStorageScheme::PostgresOnly) => res
                == StoreStep::InsertIntoDatabase(new),
            (Some(new), MerchantStorageScheme::RedisKv) => {
                &&& res matches StoreStep::InsertIntoStore { place, record, address }
                &&& place@ == place_of(new.merchant_id@, payment_id@, new.address_id@)
                &&& record == record_of(new, scheme_name)
                &&& address == new
            },
        },
{
    match encrypted {
        None => StoreStep::Fail(StorageError::EncryptionError),
        Some(address) => match storage_scheme {
            MerchantStorageScheme::PostgresOnly => StoreStep::InsertIntoDatabase(address),
            MerchantStorageScheme::RedisKv => {
                let place = find_place(
                    address.merchant_id.as_str(),
                    payment_id,
                    address.address_id.as_str(),
                );
                let record = created_address(&address, scheme_name);
                StoreStep::InsertIntoStore { place, record, address }
            },
        },
    }
}

/// What to do to change an address of a payment. `encrypted` is the address after encryption,
/// where that went well.
pub fn update_payment_address<U: AddressChange>(
    encrypted: Option<Address>,
    payment_id: &str,
    storage_scheme: MerchantStorageScheme,
    change: U,
) -> (res: StoreStep)
    ensures
        match (encrypted, storage_scheme) {
            (None, _) => res == StoreStep::Fail(StorageError::EncryptionError),
            (Some(address), MerchantStorageScheme::PostgresOnly) => res
                == StoreStep::UpdateInDatabase(address),
            (Some(address), MerchantStorageScheme::RedisKv) => {
                &&& res matches StoreStep::UpdateInStore { place, record, before }
                &&& place@ == place_of(address.merchant_id@, payment_id@, address.address_id@)
                &&& call_ensures(U::create_address, (change, address), record)
                &&& before == address
            },
        },
{
    match encrypted {
        None => StoreStep::Fail(StorageError::EncryptionError),
        Some(before) => match storage_scheme {
            MerchantStorageScheme::PostgresOnly => StoreStep::UpdateInDatabase(before),
            MerchantStorageScheme::RedisKv => {
                let place = find_place(
                    before.merchant_id.as_str(),
                    payment_id,
                    before.address_id.as_str(),
                );
                let record = change.create_address(before.clone());
                StoreStep::UpdateInStore { place, record, before }
            },
        },
    }
}

/// What to do after an address was read, or after the database stored one.
pub fn address_answered(answer: Result<Address, StorageError>) -> (res: StoreStep)
    ensures
        res == (match answer {
            Ok(address) => StoreStep::Decrypt(address),
            Err(error) => StoreStep::Fail(error),
        }),
{
    match answer {
        Ok(address) => StoreStep::Decrypt(address),
        Err(error) => StoreStep::Fail(error),
    }
}

/// What to do after an address was added to the store. There is no reply where the store did
/// not answer.
pub fn address_inserted(record: Address, reply: Option<HsetnxReply>) -> (res: StoreStep)
    ensures
        res == (match reply {
            Some(HsetnxReply::KeySet) => StoreStep::Decrypt(record),
            Some(HsetnxReply::KeyNotSet) => StoreStep::Fail(
                StorageError::DuplicateValue { entity: "address", key: Some(record.address_id) },
            ),
            None => StoreStep::Fail(StorageError::KVError),
        }),
{
    match reply {
        Some(HsetnxReply::KeySet) => StoreStep::Decrypt(record),
        Some(HsetnxReply::KeyNotSet) => StoreStep::Fail(
            StorageError::DuplicateValue { entity: "address", key: Some(record.address_id) },
        ),
        None => StoreStep::Fail(StorageError::KVError),
    }
}

/// What to do after an address was changed in the store.
pub fn address_updated(record: Address, stored: bool) -> (res: StoreStep)
    ensures
        res == (if stored {
            StoreStep::Decrypt(record)
        } else {
            StoreStep::Fail(StorageError::KVError)
        }),
{
    if stored {
        StoreStep::Decrypt(record)
    } else {
        StoreStep::Fail(StorageError::KVError)
    }
}

/// The outcome after a record was decrypted, where that went well.
pub fn address_decrypted<D>(decrypted: Option<D>) -> (res: Result<D, StorageError>)
    ensures
        match decrypted {
            Some(address) => res == Ok::<D, StorageError>(address),
            None => res == Err::<D, StorageError>(StorageError::DecryptionError),
        },
{
    match decrypted {
        Some(address) => Ok(address),
        None => Err(StorageError::DecryptionError),
    }
}

/// The outcome after several records were decrypted, each where that went well: all of them,
/// or an error where one could not be.
pub fn addresses_decrypted<D>(decrypted: Vec<Option<D>>) -> (res: Result<Vec<D>, StorageError>)
    ensures
        match res {
            Ok(list) => {
                &&& list@.len() == decrypted@.len()
                &&& forall|i: int|
                    0 <= i < list@.len() ==> decrypted@[i] == Some(#[trigger] list@[i])
            },
            Err(error) => error == StorageError::DecryptionError && exists|i: int|
                0 <= i < decrypted@.len() && #[trigger] decrypted@[i] is None,
        },
{
    let mut list: Vec<D> = Vec::new();
    let mut rest = decrypted;
    let ghost all = rest@;
    while rest.len() > 0
        invariant
            all == decrypted@,
            rest@.len() <= all.len(),
            rest@ == all.skip(all.len() - rest@.len()),
            list@.len() + rest@.len() == all.len(),
            forall|i: int| 0 <= i < list@.len() ==> all[i] == Some(#[trigger] list@[i]),
        decreases rest@.len(),
    {
        let ghost done = list@.len() as int;
        let first = rest.remove(0);
        assert(first == all[done]);
        assert(rest@ == all.skip(done + 1));
        match first {
            Some(address) => {
                list.push(address);
            },
            None => {
                assert(all[done] is None);
                return Err(StorageError::DecryptionError);
            },
        }
    }
    Ok(list)
}

/// An address of a payment is looked for at the place at which it was put, and at no place at
/// which another one was put.
pub proof fn law_found_where_put(
    merchant_id: Seq<char>,
    payment_id: Seq<char>,
    address_id: Seq<char>,
    other_merchant_id: Seq<char>,
    other_payment_id: Seq<char>,
    other_address_id: Seq<char>,
)
    ensures
        place_of(merchant_id, payment_id, address_id) == place_of(
            other_merchant_id,
            other_payment_id,
            other_address_id,
        ) <==> merchant_id == other_merchant_id && payment_id == other_payment_id && address_id
            == other_address_id,
{
    if address_field(address_id) == address_field(other_address_id) {
        let length = "add_"@.len() as int;
        assert(address_field(address_id).skip(length) == address_id);
        assert(address_field(other_address_id).skip(length) == other_address_id);
    }
}

} // verus!
