//! The decisions of the customer service: how its errors are answered.

use crate::common::service::{
    join_text, repository_message, unprocessable_message, AppErrorParts, RepositoryFailure,
    ServiceError, lemma_service_error_statuses,
};
use crate::tenant::customers::model::{CustomerFull, CustomerResolved};
use std::collections::HashMap;
use vstd::prelude::*;

verus! {

broadcast use vstd::std_specs::hash::group_hash_axioms;

/// The errors a customer request ends in.
#[derive(Debug, Clone, PartialEq)]
pub enum CustomersServiceError {
    Repository(RepositoryFailure),
    Unauthorized,
    UnprocessableEntry(&'static str),
    CustomerExists,
    PdfGenError(String),
    ParseError(String),
    IOError(String),
    BuilderError(String),
    UuidError(String),
}

impl CustomersServiceError {
    /// The message of a refused access.
    pub const UNAUTHORIZED: &'static str = "Hozzáférés megtagadva!";

    /// The message of an e-mail address that another customer has.
    pub const CUSTOMER_EXISTS: &'static str = "A megadot e-mail címmel már létezik vevő a rendszerben!";

    /// The message the error displays.
    pub open spec fn spec_message(&self) -> Seq<char> {
        match self {
            CustomersServiceError::Repository(f) => repository_message(f.spec_detail()),
            CustomersServiceError::Unauthorized => Self::UNAUTHORIZED@,
            CustomersServiceError::UnprocessableEntry(m) => unprocessable_message(m@),
            CustomersServiceError::CustomerExists => Self::CUSTOMER_EXISTS@,
            CustomersServiceError::PdfGenError(m) => "PdfGen error: "@ + m@,
            CustomersServiceError::ParseError(m) => "Parse error: "@ + m@,
            CustomersServiceError::IOError(m) => "IO error: "@ + m@,
            CustomersServiceError::BuilderError(m) => "BuilderError: "@ + m@,
            CustomersServiceError::UuidError(m) => "UuidError: "@ + m@,
        }
    }

    /// The message the error displays.
    pub fn to_string(&self) -> (r: String)
        ensures
            r@ == self.spec_message(),
    {
        match self {
            CustomersServiceError::Repository(f) => {
                let d = f.detail();
                join_text("Repository error: ", d.as_str())
            },
            CustomersServiceError::Unauthorized => Self::UNAUTHORIZED.to_owned(),
            CustomersServiceError::UnprocessableEntry(m) => join_text(
                "Hiba történt az adatok feldolgozása során: ",
                *m,
            ),
            CustomersServiceError::CustomerExists => Self::CUSTOMER_EXISTS.to_owned(),
            CustomersServiceError::PdfGenError(m) => join_text("PdfGen error: ", m.as_str()),
            CustomersServiceError::ParseError(m) => join_text("Parse error: ", m.as_str()),
            CustomersServiceError::IOError(m) => join_text("IO error: ", m.as_str()),
            CustomersServiceError::BuilderError(m) => join_text("BuilderError: ", m.as_str()),
            CustomersServiceError::UuidError(m) => join_text("UuidError: ", m.as_str()),
        }
    }

    /// The status code of the answer.
    pub open spec fn spec_status(&self) -> u16 {
        match self {
            CustomersServiceError::Unauthorized => 401,
            CustomersServiceError::CustomerExists => 409,
            CustomersServiceError::UnprocessableEntry(_) => 422,
            CustomersServiceError::Repository(RepositoryFailure::RowNotFound) => 404,
            _ => 500,
        }
    }

    /// How the error is answered: refused access, an existing customer,
    /// unprocessable requests and missing rows are shown to the user; anything else is an internal
    /// error, logged at error level.
    pub fn to_app_error(&self) -> (r: AppErrorParts)
        ensures
            r.status == self.spec_status(),
            r.user_facing == (r.status != 500),
            r.logged_as_error == (r.status == 500),
            r.message@ == (if r.status == 404 {
                "Nem található"@
            } else {
                self.spec_message()
            }),
    {
        let status: u16 = match self {
            CustomersServiceError::Unauthorized => 401,
            CustomersServiceError::CustomerExists => 409,
            CustomersServiceError::UnprocessableEntry(_) => 422,
            CustomersServiceError::Repository(RepositoryFailure::RowNotFound) => 404,
            _ => 500,
        };
        let message = if status == 404 {
            "Nem található".to_owned()
        } else {
            self.to_string()
        };
        AppErrorParts { status, user_facing: status != 500, logged_as_error: status == 500, message }
    }
}

/// A customer request fails with the answer the shared service layer
/// gives the same failure: a missing row, and nothing else, is answered
/// "not found" (404, shown to the user); refused access is 401, an e-mail
/// address that another customer has is a conflict (409), an
/// unprocessable request is 422; PDF, parse, I/O, builder and UUID
/// failures are internal errors (500).
pub proof fn lemma_customer_errors_answered_as_shared(e: CustomersServiceError)
    ensures
        e.spec_status() == 404 <==> e == CustomersServiceError::Repository(
            RepositoryFailure::RowNotFound,
        ),
        e matches CustomersServiceError::Repository(f) ==> e.spec_status()
            == ServiceError::Repository(f).spec_status(),
        e is Unauthorized ==> e.spec_status() == ServiceError::Unauthorized.spec_status(),
        e is CustomerExists ==> e.spec_status() == ServiceError::Conflict(
            CustomersServiceError::CUSTOMER_EXISTS,
        ).spec_status(),
        e matches CustomersServiceError::UnprocessableEntry(m) ==> e.spec_status()
            == ServiceError::UnprocessableEntry(m).spec_status(),
        (e is PdfGenError || e is ParseError || e is IOError || e is BuilderError
            || e is UuidError) ==> e.spec_status() == 500,
{
    lemma_service_error_statuses(ServiceError::Repository(RepositoryFailure::RowNotFound));
}

/// An insert that breaks a uniqueness constraint means the e-mail address
/// is taken; other failures stay repository errors.
pub fn insert_failure(failure: RepositoryFailure) -> (r: CustomersServiceError)
    ensures
        r == (match failure {
            RepositoryFailure::UniqueViolation(_) => CustomersServiceError::CustomerExists,
            _ => CustomersServiceError::Repository(failure),
        }),
{
    match failure {
        RepositoryFailure::UniqueViolation(_) => CustomersServiceError::CustomerExists,
        _ => CustomersServiceError::Repository(failure),
    }
}

/// An optional identifier as a sequence of at most one identifier.
pub open spec fn opt_ids(id: Option<u128>) -> Seq<u128> {
    match id {
        Some(k) => seq![k],
        None => Seq::empty(),
    }
}

/// The address identifiers a customer refers to: billing first, then
/// mailing.
pub open spec fn customer_address_ids(c: CustomerResolved) -> Seq<u128> {
    opt_ids(c.billing_address) + opt_ids(c.mailing_address)
}

/// The address identifiers a list of customers refers to, customer by
/// customer.
pub open spec fn spec_address_ids(cs: Seq<CustomerResolved>) -> Seq<u128>
    decreases cs.len(),
{
    if cs.len() == 0 {
        Seq::empty()
    } else {
        spec_address_ids(cs.drop_last()) + customer_address_ids(cs.last())
    }
}

/// Collects the address identifiers that a page of customers refers to.
pub fn address_ids(customers: &Vec<CustomerResolved>) -> (r: Vec<u128>)
    ensures
        r@ == spec_address_ids(customers@),
{
    let mut ids: Vec<u128> = Vec::new();
    let mut i: usize = 0;
    while i < customers.len()
        invariant
            i <= customers@.len(),
            ids@ == spec_address_ids(customers@.take(i as int)),
        decreases customers@.len() - i,
    {
        let c = &customers[i];
        proof {
            let t = customers@.take(i as int + 1);
            assert(t.drop_last() =~= customers@.take(i as int));
            assert(t.last() == customers@[i as int]);
        }
        if let Some(b) = c.billing_address {
            ids.push(b);
        }
        if let Some(m) = c.mailing_address {
            ids.push(m);
        }
        assert(ids@ =~= spec_address_ids(customers@.take(i as int + 1)));
        i = i + 1;
    }
    assert(customers@.take(i as int) =~= customers@);
    ids
}

/// The addresses keyed by identifier; a later entry for the same
/// identifier replaces an earlier one.
pub open spec fn address_map(s: Seq<(u128, String)>) -> Map<u128, String>
    decreases s.len(),
{
    if s.len() == 0 {
        Map::empty()
    } else {
        address_map(s.drop_last()).insert(s.last().0, s.last().1)
    }
}

/// Takes the address an identifier names out of the map: the address, if
/// the map has it, and the map without it.
pub open spec fn take_address(m: Map<u128, String>, id: Option<u128>) -> (
    Option<String>,
    Map<u128, String>,
) {
    match id {
        Some(k) => if m.contains_key(k) {
            (Some(m[k]), m.remove(k))
        } else {
            (None, m)
        },
        None => (None, m),
    }
}

/// Attaches addresses to customers in order; each address is handed out
/// once, to the first field that names it (a customer's billing address
/// before its mailing address).
pub open spec fn spec_join(cs: Seq<CustomerResolved>, m: Map<u128, String>) -> Seq<CustomerFull>
    decreases cs.len(),
{
    if cs.len() == 0 {
        Seq::empty()
    } else {
        let c = cs[0];
        let billing = take_address(m, c.billing_address);
        let mailing = take_address(billing.1, c.mailing_address);
        seq![c.spec_into_full(billing.0, mailing.0)] + spec_join(cs.drop_first(), mailing.1)
    }
}

/// Joining gives one customer per customer, in order.
pub proof fn lemma_join_len(cs: Seq<CustomerResolved>, m: Map<u128, String>)
    ensures
        spec_join(cs, m).len() == cs.len(),
    decreases cs.len(),
{
    if cs.len() > 0 {
        let c = cs[0];
        let billing = take_address(m, c.billing_address);
        let mailing = take_address(billing.1, c.mailing_address);
        lemma_join_len(cs.drop_first(), mailing.1);
    }
}

/// Joining keeps every customer, in order, with all of its own data: only
/// the two address slots are filled, and a slot holds an address only for
/// a customer that refers to one, namely the text fetched for the
/// identifier it refers to.
pub proof fn lemma_join_keeps_customers(cs: Seq<CustomerResolved>, m: Map<u128, String>, i: int)
    requires
        0 <= i < cs.len(),
    ensures
        spec_join(cs, m).len() == cs.len(),
        spec_join(cs, m)[i].id == cs[i].id,
        spec_join(cs, m)[i].name == cs[i].name,
        spec_join(cs, m)[i].contact_name == cs[i].contact_name,
        spec_join(cs, m)[i].email == cs[i].email,
        spec_join(cs, m)[i].phone_number == cs[i].phone_number,
        spec_join(cs, m)[i].status == cs[i].status,
        spec_join(cs, m)[i].customer_type == cs[i].customer_type,
        spec_join(cs, m)[i].created_by_id == cs[i].created_by_id,
        spec_join(cs, m)[i].created_by == cs[i].created_by,
        spec_join(cs, m)[i].created_at == cs[i].created_at,
        spec_join(cs, m)[i].updated_at == cs[i].updated_at,
        spec_join(cs, m)[i].deleted_at == cs[i].deleted_at,
        spec_join(cs, m)[i].billing_address matches Some(t) ==> (cs[i].billing_address matches Some(
            k,
        ) && m.contains_key(k) && m[k] == t),
        spec_join(cs, m)[i].mailing_address matches Some(t) ==> (cs[i].mailing_address matches Some(
            k,
        ) && m.contains_key(k) && m[k] == t),
    decreases cs.len(),
{
    lemma_join_len(cs, m);
    let c = cs[0];
    let billing = take_address(m, c.billing_address);
    let mailing = take_address(billing.1, c.mailing_address);
    let rest = cs.drop_first();
    assert(spec_join(cs, m) == seq![c.spec_into_full(billing.0, mailing.0)] + spec_join(
        rest,
        mailing.1,
    ));
    if i > 0 {
        lemma_join_keeps_customers(rest, mailing.1, i - 1);
        assert(spec_join(cs, m)[i] == spec_join(rest, mailing.1)[i - 1]);
        assert(rest[i - 1] == cs[i]);
    }
}

/// The map that is left after `spec_join` has handed out its addresses.
pub open spec fn join_rest(cs: Seq<CustomerResolved>, m: Map<u128, String>) -> Map<u128, String>
    decreases cs.len(),
{
    if cs.len() == 0 {
        m
    } else {
        let c = cs[0];
        let billing = take_address(m, c.billing_address);
        let mailing = take_address(billing.1, c.mailing_address);
        join_rest(cs.drop_first(), mailing.1)
    }
}

proof fn lemma_join_split(cs: Seq<CustomerResolved>, m: Map<u128, String>, i: int)
    requires
        0 <= i < cs.len(),
    ensures
        spec_join(cs.take(i + 1), m) == spec_join(cs.take(i), m) + spec_join(
            seq![cs[i]],
            join_rest(cs.take(i), m),
        ),
        join_rest(cs.take(i + 1), m) == join_rest(seq![cs[i]], join_rest(cs.take(i), m)),
    decreases i,
{
    let c = cs[0];
    let billing = take_address(m, c.billing_address);
    let mailing = take_address(billing.1, c.mailing_address);
    if i == 0 {
        assert(cs.take(1) =~= seq![cs[0]]);
        assert(cs.take(0) =~= Seq::<CustomerResolved>::empty());
        assert(spec_join(cs.take(0), m) =~= Seq::<CustomerFull>::empty());
        assert(spec_join(cs.take(1), m) =~= spec_join(cs.take(0), m) + spec_join(
            seq![cs[0]],
            join_rest(cs.take(0), m),
        ));
    } else {
        let rest = cs.drop_first();
        lemma_join_split(rest, mailing.1, i - 1);
        assert(cs.take(i + 1).drop_first() =~= rest.take(i));
        assert(cs.take(i).drop_first() =~= rest.take(i - 1));
        assert(cs.take(i + 1)[0] == c);
        assert(cs.take(i)[0] == c);
        assert(rest[i - 1] == cs[i]);
        assert(spec_join(cs.take(i + 1), m) =~= seq![c.spec_into_full(billing.0, mailing.0)]
            + spec_join(rest.take(i), mailing.1));
        assert(spec_join(cs.take(i), m) =~= seq![c.spec_into_full(billing.0, mailing.0)]
            + spec_join(rest.take(i - 1), mailing.1));
    }
}

proof fn lemma_join_one(c: CustomerResolved, m: Map<u128, String>)
    ensures
        ({
            let billing = take_address(m, c.billing_address);
            let mailing = take_address(billing.1, c.mailing_address);
            &&& spec_join(seq![c], m) == seq![c.spec_into_full(billing.0, mailing.0)]
            &&& join_rest(seq![c], m) == mailing.1
        }),
{
    let one = seq![c];
    assert(one.drop_first() =~= Seq::<CustomerResolved>::empty());
    reveal_with_fuel(spec_join, 2);
    reveal_with_fuel(join_rest, 2);
    assert(spec_join(one, m) =~= seq![
        c.spec_into_full(
            take_address(m, c.billing_address).0,
            take_address(take_address(m, c.billing_address).1, c.mailing_address).0,
        ),
    ]);
}

/// Takes an address out of the working map, as `take_address` does.
fn take_from(map: &mut HashMap<u128, String>, id: Option<u128>) -> (r: Option<String>)
    ensures
        (r, final(map)@) == take_address(old(map)@, id),
{
    match id {
        Some(k) => {
            let r = map.remove(&k);
            proof {
                if old(map)@.contains_key(k) {
                    assert(final(map)@ =~= old(map)@.remove(k));
                } else {
                    assert(final(map)@ =~= old(map)@);
                }
            }
            r
        },
        None => None,
    }
}

/// Attaches the fetched addresses to a page of customers: each customer
/// gets the addresses its identifiers name, an address being handed out
/// once (see `spec_join`).
pub fn join_addresses(customers: Vec<CustomerResolved>, addresses: Vec<(u128, String)>) -> (r: Vec<
    CustomerFull,
>)
    ensures
        r@ == spec_join(customers@, address_map(addresses@)),
{
    let ghost cs = customers@;
    let ghost entries = addresses@;
    let mut map: HashMap<u128, String> = HashMap::new();
    assert(map@ =~= address_map(entries.take(0)));
    for entry in it: addresses
        invariant
            it.seq() == entries,
            map@ == address_map(entries.take(it.index() as int)),
    {
        let (id, text) = entry;
        proof {
            let t = entries.take(it.index() as int + 1);
            assert(t.drop_last() =~= entries.take(it.index() as int));
        }
        map.insert(id, text);
    }
    assert(entries.take(entries.len() as int) =~= entries);
    let ghost m0 = map@;
    let mut joined: Vec<CustomerFull> = Vec::new();
    assert(joined@ =~= spec_join(cs.take(0), m0));
    for c in it: customers
        invariant
            it.seq() == cs,
            joined@ == spec_join(cs.take(it.index() as int), m0),
            map@ == join_rest(cs.take(it.index() as int), m0),
    {
        proof {
            lemma_join_split(cs, m0, it.index() as int);
        }
        let ghost before = map@;
        let billing = take_from(&mut map, c.billing_address);
        let mailing = take_from(&mut map, c.mailing_address);
        let full = c.into_full(billing, mailing);
        proof {
            lemma_join_one(c, before);
        }
        joined.push(full);
    }
    assert(cs.take(cs.len() as int) =~= cs);
    joined
}

/// The address an identifier names in the map, if any.
pub open spec fn lookup_address(m: Map<u128, String>, id: Option<u128>) -> Option<String> {
    match id {
        Some(k) => if m.contains_key(k) {
            Some(m[k])
        } else {
            None
        },
        None => None,
    }
}

proof fn lemma_address_ids_front(cs: Seq<CustomerResolved>)
    requires
        cs.len() > 0,
    ensures
        spec_address_ids(cs) == customer_address_ids(cs[0]) + spec_address_ids(cs.drop_first()),
    decreases cs.len(),
{
    if cs.len() == 1 {
        assert(cs.drop_last() =~= Seq::<CustomerResolved>::empty());
        assert(cs.drop_first() =~= Seq::<CustomerResolved>::empty());
        assert(spec_address_ids(cs) =~= customer_address_ids(cs[0]) + spec_address_ids(
            cs.drop_first(),
        ));
    } else {
        let init = cs.drop_last();
        lemma_address_ids_front(init);
        assert(init[0] == cs[0]);
        assert(cs.drop_first().drop_last() =~= init.drop_first());
        assert(cs.drop_first().last() == cs.last());
        assert(spec_address_ids(cs) =~= customer_address_ids(cs[0]) + spec_address_ids(
            cs.drop_first(),
        ));
    }
}

proof fn lemma_address_ids_contain(cs: Seq<CustomerResolved>, j: int)
    requires
        0 <= j < cs.len(),
    ensures
        forall|k: u128| #[trigger]
            customer_address_ids(cs[j]).contains(k) ==> spec_address_ids(cs).contains(k),
    decreases cs.len(),
{
    let init = cs.drop_last();
    if j < cs.len() - 1 {
        lemma_address_ids_contain(init, j);
        assert(init[j] == cs[j]);
        assert forall|k: u128| #[trigger]
            customer_address_ids(cs[j]).contains(k) implies spec_address_ids(cs).contains(k) by {
            let i = choose|i: int|
                0 <= i < spec_address_ids(init).len() && spec_address_ids(init)[i] == k;
            assert(spec_address_ids(cs)[i] == k);
        }
    } else {
        assert forall|k: u128| #[trigger]
            customer_address_ids(cs[j]).contains(k) implies spec_address_ids(cs).contains(k) by {
            let ids = customer_address_ids(cs[j]);
            let i = choose|i: int| 0 <= i < ids.len() && ids[i] == k;
            assert(spec_address_ids(cs)[spec_address_ids(init).len() + i] == k);
        }
    }
}

/// When no address identifier occurs twice on a page of customers, the
/// join gives every customer, in order and otherwise unchanged, exactly the
/// addresses that its identifiers name in the fetched addresses (and no
/// address where the map has none).
pub proof fn lemma_join_distinct_ids(cs: Seq<CustomerResolved>, m: Map<u128, String>)
    requires
        spec_address_ids(cs).no_duplicates(),
    ensures
        spec_join(cs, m).len() == cs.len(),
        forall|i: int|
            0 <= i < cs.len() ==> #[trigger] spec_join(cs, m)[i] == cs[i].spec_into_full(
                lookup_address(m, cs[i].billing_address),
                lookup_address(m, cs[i].mailing_address),
            ),
    decreases cs.len(),
{
    if cs.len() > 0 {
        let c = cs[0];
        let rest = cs.drop_first();
        let billing = take_address(m, c.billing_address);
        let mailing = take_address(billing.1, c.mailing_address);
        let m2 = mailing.1;
        lemma_address_ids_front(cs);
        let first_ids = customer_address_ids(c);
        let all = spec_address_ids(cs);
        let rest_ids = spec_address_ids(rest);
        assert(all == first_ids + rest_ids);
        assert(rest_ids.no_duplicates()) by {
            assert forall|a: int, b: int|
                0 <= a < rest_ids.len() && 0 <= b < rest_ids.len() && a != b implies rest_ids[a]
                != rest_ids[b] by {
                assert(all[first_ids.len() + a] == rest_ids[a]);
                assert(all[first_ids.len() + b] == rest_ids[b]);
            }
        }
        assert forall|k: u128| #[trigger]
            rest_ids.contains(k) implies !first_ids.contains(k) by {
            let a = choose|a: int| 0 <= a < rest_ids.len() && rest_ids[a] == k;
            if first_ids.contains(k) {
                let b = choose|b: int| 0 <= b < first_ids.len() && first_ids[b] == k;
                assert(all[first_ids.len() + a] == k);
                assert(all[b] == k);
            }
        }
        if c.billing_address is Some && c.mailing_address is Some {
            assert(first_ids[0] == c.billing_address->0);
            assert(first_ids[1] == c.mailing_address->0);
            assert(all[0] != all[1]);
        }
        lemma_join_distinct_ids(rest, m2);
        assert(spec_join(cs, m) == seq![c.spec_into_full(billing.0, mailing.0)] + spec_join(
            rest,
            m2,
        ));
        assert forall|i: int| 0 <= i < cs.len() implies #[trigger] spec_join(cs, m)[i]
            == cs[i].spec_into_full(
            lookup_address(m, cs[i].billing_address),
            lookup_address(m, cs[i].mailing_address),
        ) by {
            if i > 0 {
                let d = rest[i - 1];
                assert(d == cs[i]);
                lemma_address_ids_contain(rest, i - 1);
                let d_ids = customer_address_ids(d);
                if d.billing_address is Some {
                    let k = d.billing_address->0;
                    assert(d_ids[0] == k);
                    assert(d_ids.contains(k));
                    assert(rest_ids.contains(k));
                    assert(!first_ids.contains(k));
                    if c.billing_address is Some {
                        assert(first_ids[0] == c.billing_address->0);
                    }
                    if c.mailing_address is Some {
                        assert(first_ids[first_ids.len() - 1] == c.mailing_address->0);
                    }
                    assert(lookup_address(m2, d.billing_address) == lookup_address(
                        m,
                        d.billing_address,
                    ));
                }
                if d.mailing_address is Some {
                    let k = d.mailing_address->0;
                    assert(d_ids[d_ids.len() - 1] == k);
                    assert(d_ids.contains(k));
                    assert(rest_ids.contains(k));
                    assert(!first_ids.contains(k));
                    if c.billing_address is Some {
                        assert(first_ids[0] == c.billing_address->0);
                    }
                    if c.mailing_address is Some {
                        assert(first_ids[first_ids.len() - 1] == c.mailing_address->0);
                    }
                    assert(lookup_address(m2, d.mailing_address) == lookup_address(
                        m,
                        d.mailing_address,
                    ));
                }
                assert(spec_join(rest, m2)[i - 1] == spec_join(cs, m)[i]);
            }
        }
    }
}

} // verus!
