//! Strings and lists of strings that the contract host keeps.
//!
//! A string or a list of the host is a handle to an object that never changes: adding to
//! a list makes another object. The calls into the host are the part of this file that is
//! not proved. The host counts the work done for a contract, and ends the contract once it
//! has used up its budget. When that is, no argument of a call tells.

use crate::text::ByteString;
use crate::types::InvoiceMeta;
use vstd::prelude::*;

verus! {

/// The environment of a contract.
#[verifier::external_type_specification]
#[verifier::external_body]
pub struct ExEnv(soroban_sdk::Env);

/// A string of the host.
#[verifier::external_type_specification]
#[verifier::external_body]
pub struct ExHostString(soroban_sdk::String);

/// A list of the host.
#[verifier::external_type_specification]
#[verifier::external_body]
#[verifier::reject_recursive_types(T)]
pub struct ExHostVec<T>(soroban_sdk::Vec<T>);

/// A value of the host that is not of the expected type.
#[verifier::external_type_specification]
#[verifier::external_body]
pub struct ExConversionError(soroban_sdk::ConversionError);

/// The bytes of a string of the host.
pub uninterp spec fn text_of(text: soroban_sdk::String) -> Seq<u8>;

/// The items of a list of the host, each with its bytes if it is a string. The host does
/// not see to it that every item is one.
pub uninterp spec fn items_of(list: soroban_sdk::Vec<soroban_sdk::String>) -> Seq<Option<Seq<u8>>>;

/// `soroban_sdk::String::copy_into_slice`: copies all bytes of the string into a slice of
/// the length that `soroban_sdk::String::len` gives, a 32-bit number.
/// Says nothing of when the budget of the contract is used up.
#[verifier::external_body]
fn copy_bytes(text: &soroban_sdk::String) -> (bytes: Vec<u8>)
    ensures
        bytes@ == text_of(*text),
        bytes@.len() <= u32::MAX,
{
    let mut bytes = vec![0u8; text.len() as usize];
    text.copy_into_slice(&mut bytes);
    bytes
}

/// `soroban_sdk::Vec::new`: a list without items.
/// Says nothing of when the budget of the contract is used up.
#[verifier::external_body]
fn new_list(env: &soroban_sdk::Env) -> (list: soroban_sdk::Vec<soroban_sdk::String>)
    ensures
        items_of(list) == Seq::<Option<Seq<u8>>>::empty(),
{
    soroban_sdk::Vec::new(env)
}

/// `soroban_sdk::Vec::len`: how many items the list has, a 32-bit number.
/// Says nothing of when the budget of the contract is used up.
#[verifier::external_body]
fn list_len(list: &soroban_sdk::Vec<soroban_sdk::String>) -> (len: u32)
    ensures
        len == items_of(*list).len(),
{
    list.len()
}

/// `soroban_sdk::Vec::try_get`: the item at a position, nothing beyond the last item, and
/// an error where the item is not a string.
/// Says nothing of when the budget of the contract is used up.
#[verifier::external_body]
fn list_item(list: &soroban_sdk::Vec<soroban_sdk::String>, at: u32) -> (item: Result<
    Option<soroban_sdk::String>,
    soroban_sdk::ConversionError,
>)
    ensures
        match item {
            Ok(Some(text)) => at < items_of(*list).len() && items_of(*list)[at as int] == Some(
                text_of(text),
            ),
            Ok(None) => at >= items_of(*list).len(),
            Err(_) => at < items_of(*list).len() && items_of(*list)[at as int] is None,
        },
{
    list.try_get(at)
}

/// `soroban_sdk::Vec::push_back`, on a second handle to the list: the items of the list,
/// and after them the string that `soroban_sdk::String::from_bytes` makes of the bytes.
/// Says nothing of when the budget of the contract is used up.
#[verifier::external_body]
fn list_with(list: &soroban_sdk::Vec<soroban_sdk::String>, bytes: &Vec<u8>) -> (longer:
    soroban_sdk::Vec<soroban_sdk::String>)
    requires
        items_of(*list).len() < u32::MAX,
        bytes@.len() <= u32::MAX,
    ensures
        items_of(longer) == items_of(*list).push(Some(bytes@)),
{
    let mut longer = list.clone();
    longer.push_back(soroban_sdk::String::from_bytes(list.env(), bytes));
    longer
}

impl ByteString {
    /// The bytes of a string of the host.
    pub fn read(text: &soroban_sdk::String) -> (bytes: Self)
        ensures
            bytes@ == text_of(*text),
            bytes@.len() <= u32::MAX,
    {
        ByteString { bytes: copy_bytes(text) }
    }
}

/// Metadata with the bytes of its strings.
pub open spec fn meta_of(meta: InvoiceMeta<soroban_sdk::String>) -> InvoiceMeta<Seq<u8>> {
    InvoiceMeta {
        invoice_id: text_of(meta.invoice_id),
        issuer: text_of(meta.issuer),
        debtor: text_of(meta.debtor),
        face_value_usd: meta.face_value_usd,
        discount_rate_bps: meta.discount_rate_bps,
        due_date: meta.due_date,
        currency: text_of(meta.currency),
        ipfs_doc_hash: text_of(meta.ipfs_doc_hash),
        transfer_fee_bps: meta.transfer_fee_bps,
        fee_recipient: meta.fee_recipient,
        notification_webhook: text_of(meta.notification_webhook),
    }
}

impl InvoiceMeta {
    /// Metadata of which the host keeps the strings.
    pub fn read(meta: &InvoiceMeta<soroban_sdk::String>) -> (read: Self)
        ensures
            read@ == meta_of(*meta),
            read@.invoice_id.len() <= u32::MAX,
    {
        InvoiceMeta {
            invoice_id: ByteString::read(&meta.invoice_id),
            issuer: ByteString::read(&meta.issuer),
            debtor: ByteString::read(&meta.debtor),
            face_value_usd: meta.face_value_usd,
            discount_rate_bps: meta.discount_rate_bps,
            due_date: meta.due_date,
            currency: ByteString::read(&meta.currency),
            ipfs_doc_hash: ByteString::read(&meta.ipfs_doc_hash),
            transfer_fee_bps: meta.transfer_fee_bps,
            fee_recipient: meta.fee_recipient,
            notification_webhook: ByteString::read(&meta.notification_webhook),
        }
    }
}

/// Whether every item is a string.
pub open spec fn all_strings(items: Seq<Option<Seq<u8>>>) -> bool {
    forall|i: int| 0 <= i < items.len() ==> (#[trigger] items[i]) is Some
}

/// The strings among the items, all of which are strings.
pub open spec fn strings(items: Seq<Option<Seq<u8>>>) -> Seq<Seq<u8>> {
    items.map_values(|item: Option<Seq<u8>>| item->0)
}

/// A list of ids, kept by the host. Every item is a string.
pub struct IdList {
    list: soroban_sdk::Vec<soroban_sdk::String>,
}

impl View for IdList {
    type V = Seq<Seq<u8>>;

    closed spec fn view(&self) -> Seq<Seq<u8>> {
        strings(items_of(self.list))
    }
}

impl IdList {
    #[verifier::type_invariant]
    spec fn holds_strings(&self) -> bool {
        all_strings(items_of(self.list))
    }

    /// The list of the host behind this one.
    pub closed spec fn handle(&self) -> soroban_sdk::Vec<soroban_sdk::String> {
        self.list
    }

    /// The empty list.
    pub fn new(env: &soroban_sdk::Env) -> (ids: Self)
        ensures
            ids@ == Seq::<Seq<u8>>::empty(),
    {
        let ids = IdList { list: new_list(env) };
        assert(ids@ =~= Seq::<Seq<u8>>::empty());
        ids
    }

    /// A list of the host, if every item is a string.
    pub fn read(list: soroban_sdk::Vec<soroban_sdk::String>) -> (ids: Option<Self>)
        ensures
            ids is Some <==> all_strings(items_of(list)),
            ids matches Some(ids) ==> ids@ == strings(items_of(list)) && ids.handle() == list,
    {
        let len: u32 = list_len(&list);
        let mut i: u32 = 0;
        while i < len
            invariant
                i <= len,
                len == items_of(list).len(),
                forall|j: int| 0 <= j < i ==> (#[trigger] items_of(list)[j]) is Some,
            decreases len - i,
        {
            if list_item(&list, i).is_err() {
                assert(items_of(list)[i as int] is None);
                return None;
            }
            i = i + 1;
        }
        Some(IdList { list })
    }

    /// The list of the host behind this one.
    pub fn as_host(&self) -> (list: &soroban_sdk::Vec<soroban_sdk::String>)
        ensures
            *list == self.handle(),
            strings(items_of(*list)) == self@,
            all_strings(items_of(*list)),
    {
        proof {
            use_type_invariant(self);
        }
        &self.list
    }

    /// How many ids there are.
    pub fn len(&self) -> (len: u32)
        ensures
            len == self@.len(),
    {
        list_len(&self.list)
    }

    /// The id at a position.
    pub fn get(&self, at: u32) -> (id: ByteString)
        requires
            at < self@.len(),
        ensures
            id@ == self@[at as int],
            id@.len() <= u32::MAX,
    {
        proof {
            use_type_invariant(self);
        }
        match list_item(&self.list, at) {
            Ok(Some(text)) => ByteString::read(&text),
            _ => {
                assert(items_of(self.list)[at as int] is Some);
                assert(false);
                ByteString { bytes: Vec::new() }
            },
        }
    }

    /// Adds an id at the end.
    pub fn push(&mut self, id: &ByteString)
        requires
            old(self)@.len() < u32::MAX,
            id@.len() <= u32::MAX,
        ensures
            final(self)@ == old(self)@.push(id@),
    {
        proof {
            use_type_invariant(&*self);
        }
        self.list = list_with(&self.list, &id.bytes);
        assert(self@ =~= old(self)@.push(id@));
    }
}

} // verus!
