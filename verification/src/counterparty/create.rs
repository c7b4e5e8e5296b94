//! Counterparty creation with a typestate builder.
//!
//! One type-level marker per mandatory slot — name, phone, role and
//! counterparty type — each either its empty marker or its filled value.
//! A setter exists only on configurations where its slot is empty, and
//! finalizing exists only on the configuration with every slot filled, so
//! an incomplete creation request cannot be expressed, with no runtime
//! completeness check. The optional email slot never gates completeness
//! and the last write to it wins.

use vstd::prelude::*;

use crate::helper_structs::{
    counterparty_role_wire, counterparty_type_wire, CounterpartyRole, CounterpartyType,
};
use crate::request::NPRequest;
use crate::typestate::{apply_fills, distinct_slots, lemma_fill_order_irrelevant};
use crate::writer::{json_object, json_quoted, opt_piece, ObjWriter};

verus! {

/// Ghost value of a filled name slot.
pub struct NameV {
    pub first: Seq<char>,
    pub middle: Seq<char>,
    pub last: Seq<char>,
}

/// The filled name slot.
#[derive(Debug, Clone)]
pub struct Name {
    first_name: String,
    middle_name: String,
    last_name: String,
}

impl View for Name {
    type V = NameV;

    closed spec fn view(&self) -> NameV {
        NameV { first: self.first_name@, middle: self.middle_name@, last: self.last_name@ }
    }
}

/// The filled phone slot.
#[derive(Debug, Clone)]
pub struct Phone(String);

impl View for Phone {
    type V = Seq<char>;

    closed spec fn view(&self) -> Seq<char> {
        self.0@
    }
}

/// The empty name slot.
#[derive(Debug, Clone, Copy, PartialEq, Eq, Structural)]
pub struct NoName {
}

/// The empty phone slot.
#[derive(Debug, Clone, Copy, PartialEq, Eq, Structural)]
pub struct NoPhone {
}

/// The empty role slot.
#[derive(Debug, Clone, Copy, PartialEq, Eq, Structural)]
pub struct NoRole {
}

/// The empty counterparty-type slot.
#[derive(Debug, Clone, Copy, PartialEq, Eq, Structural)]
pub struct NoType {
}

/// The parameter-accumulation state machine: each type parameter records
/// whether its mandatory slot is still empty or already filled.
#[derive(Debug, Clone)]
pub struct CreateCounterpartyBuilder<Name, Phone, CounterpartyRole, CounterpartyType> {
    name: Name,
    phone: Phone,
    counterparty_property: CounterpartyRole,
    counterparty_type: CounterpartyType,
    email: Option<String>,
}

impl<N, P, R, T> CreateCounterpartyBuilder<N, P, R, T> {
    pub closed spec fn name_slot(&self) -> N {
        self.name
    }

    pub closed spec fn phone_slot(&self) -> P {
        self.phone
    }

    pub closed spec fn role_slot(&self) -> R {
        self.counterparty_property
    }

    pub closed spec fn type_slot(&self) -> T {
        self.counterparty_type
    }

    pub closed spec fn email_slot(&self) -> Option<String> {
        self.email
    }

    /// Sets or overwrites the optional email; it never gates
    /// completeness, and the last write wins.
    pub fn email(self, email: String) -> (r: CreateCounterpartyBuilder<N, P, R, T>)
        ensures
            r.name_slot() == self.name_slot(),
            r.phone_slot() == self.phone_slot(),
            r.role_slot() == self.role_slot(),
            r.type_slot() == self.type_slot(),
            r.email_slot() matches Some(e) && e@ == email@,
    {
        CreateCounterpartyBuilder {
            name: self.name,
            phone: self.phone,
            counterparty_property: self.counterparty_property,
            counterparty_type: self.counterparty_type,
            email: Some(email),
        }
    }
}

impl CreateCounterpartyBuilder<NoName, NoPhone, NoRole, NoType> {
    /// The initial configuration: every mandatory slot empty, no email.
    pub fn new() -> (r: CreateCounterpartyBuilder<NoName, NoPhone, NoRole, NoType>)
        ensures
            r.email_slot() is None,
    {
        CreateCounterpartyBuilder {
            name: NoName {  },
            phone: NoPhone {  },
            counterparty_property: NoRole {  },
            counterparty_type: NoType {  },
            email: None,
        }
    }
}

impl<P, R, T> CreateCounterpartyBuilder<NoName, P, R, T> {
    /// Fills the name slot, available only while it is empty; every other
    /// slot is unchanged.
    pub fn name(self, first_name: String, middle_name: String, last_name: String) -> (r:
        CreateCounterpartyBuilder<Name, P, R, T>)
        ensures
            r.name_slot()@ == (NameV {
                first: first_name@,
                middle: middle_name@,
                last: last_name@,
            }),
            r.phone_slot() == self.phone_slot(),
            r.role_slot() == self.role_slot(),
            r.type_slot() == self.type_slot(),
            r.email_slot() == self.email_slot(),
    {
        CreateCounterpartyBuilder {
            name: Name { first_name, middle_name, last_name },
            phone: self.phone,
            counterparty_property: self.counterparty_property,
            counterparty_type: self.counterparty_type,
            email: self.email,
        }
    }
}

impl<N, R, T> CreateCounterpartyBuilder<N, NoPhone, R, T> {
    /// Fills the phone slot, available only while it is empty; every
    /// other slot is unchanged.
    pub fn phone(self, phone: String) -> (r: CreateCounterpartyBuilder<N, Phone, R, T>)
        ensures
            r.phone_slot()@ == phone@,
            r.name_slot() == self.name_slot(),
            r.role_slot() == self.role_slot(),
            r.type_slot() == self.type_slot(),
            r.email_slot() == self.email_slot(),
    {
        CreateCounterpartyBuilder {
            name: self.name,
            phone: Phone(phone),
            counterparty_property: self.counterparty_property,
            counterparty_type: self.counterparty_type,
            email: self.email,
        }
    }
}

impl<N, P, T> CreateCounterpartyBuilder<N, P, NoRole, T> {
    /// Fills the role slot, available only while it is empty; every other
    /// slot is unchanged.
    pub fn role(self, role: CounterpartyRole) -> (r: CreateCounterpartyBuilder<
        N,
        P,
        CounterpartyRole,
        T,
    >)
        ensures
            r.role_slot() == role,
            r.name_slot() == self.name_slot(),
            r.phone_slot() == self.phone_slot(),
            r.type_slot() == self.type_slot(),
            r.email_slot() == self.email_slot(),
    {
        CreateCounterpartyBuilder {
            name: self.name,
            phone: self.phone,
            counterparty_property: role,
            counterparty_type: self.counterparty_type,
            email: self.email,
        }
    }
}

impl<N, P, R> CreateCounterpartyBuilder<N, P, R, NoType> {
    /// Fills the counterparty-type slot, available only while it is
    /// empty; every other slot is unchanged.
    pub fn cp_type(self, ty: CounterpartyType) -> (r: CreateCounterpartyBuilder<
        N,
        P,
        R,
        CounterpartyType,
    >)
        ensures
            r.type_slot() == ty,
            r.name_slot() == self.name_slot(),
            r.phone_slot() == self.phone_slot(),
            r.role_slot() == self.role_slot(),
            r.email_slot() == self.email_slot(),
    {
        CreateCounterpartyBuilder {
            name: self.name,
            phone: self.phone,
            counterparty_property: self.counterparty_property,
            counterparty_type: ty,
            email: self.email,
        }
    }
}

/// The parameter object of a complete creation: a function of the slot
/// values alone, so any order of the setter calls yields the same
/// request.
pub open spec fn spec_create_counterparty_props(
    name: NameV,
    phone: Seq<char>,
    role: CounterpartyRole,
    ty: CounterpartyType,
    email: Option<Seq<char>>,
) -> Seq<char> {
    json_object(
        seq![
            ("FirstName"@, json_quoted(name.first)),
            ("MiddleName"@, json_quoted(name.middle)),
            ("LastName"@, json_quoted(name.last)),
            ("Phone"@, json_quoted(phone)),
            ("CounterpartyProperty"@, json_quoted(counterparty_role_wire(role))),
            ("CounterpartyType"@, json_quoted(counterparty_type_wire(ty))),
        ] + opt_piece(
            "Email"@,
            match email {
                Some(e) => Some(json_quoted(e)),
                None => None,
            },
        ),
    )
}

impl CreateCounterpartyBuilder<Name, Phone, CounterpartyRole, CounterpartyType> {
    /// Renders the parameter object; this configuration is the only one
    /// the operation exists on.
    pub fn properties(&self) -> (r: String)
        ensures
            r@ == spec_create_counterparty_props(
                self.name_slot()@,
                self.phone_slot()@,
                self.role_slot(),
                self.type_slot(),
                match self.email_slot() {
                    Some(e) => Some(e@),
                    None => None,
                },
            ),
    {
        let mut w = ObjWriter::new();
        w.field_quoted("FirstName", self.name.first_name.as_str());
        w.field_quoted("MiddleName", self.name.middle_name.as_str());
        w.field_quoted("LastName", self.name.last_name.as_str());
        w.field_quoted("Phone", self.phone.0.as_str());
        let role_name = self.counterparty_property.wire_name();
        w.field_quoted("CounterpartyProperty", role_name.as_str());
        let kind_name = self.counterparty_type.wire_name();
        w.field_quoted("CounterpartyType", kind_name.as_str());
        if let Some(e) = &self.email {
            w.field_quoted("Email", e.as_str());
        }
        proof {
            assert(w.pieces() =~= seq![
                ("FirstName"@, json_quoted(self.name@.first)),
                ("MiddleName"@, json_quoted(self.name@.middle)),
                ("LastName"@, json_quoted(self.name@.last)),
                ("Phone"@, json_quoted(self.phone@)),
                (
                    "CounterpartyProperty"@,
                    json_quoted(counterparty_role_wire(self.counterparty_property)),
                ),
                ("CounterpartyType"@, json_quoted(counterparty_type_wire(self.counterparty_type))),
            ] + opt_piece(
                "Email"@,
                match self.email {
                    Some(e) => Some(json_quoted(e@)),
                    None => None,
                },
            ));
        }
        w.finish()
    }

    /// Finalizes into a wire request under the given key.
    pub fn request(&self, api_key: String) -> (r: NPRequest)
        ensures
            r.api_key@ == api_key@,
            r.model_name@ == "Counterparty"@,
            r.called_method@ == "save"@,
            r.method_properties@ == spec_create_counterparty_props(
                self.name_slot()@,
                self.phone_slot()@,
                self.role_slot(),
                self.type_slot(),
                match self.email_slot() {
                    Some(e) => Some(e@),
                    None => None,
                },
            ),
    {
        NPRequest {
            api_key,
            model_name: String::from_str("Counterparty"),
            called_method: String::from_str("save"),
            method_properties: self.properties(),
        }
    }
}


/// One filled mandatory slot of a counterparty creation.
pub enum CounterpartyFill {
    NameFill(NameV),
    PhoneFill(Seq<char>),
    RoleFill(CounterpartyRole),
    TypeFill(CounterpartyType),
}

/// The four fills of a complete counterparty creation, one per mandatory
/// slot: what `name`, `phone`, `role` and `cp_type` contribute.
pub open spec fn counterparty_fills(
    name: NameV,
    phone: Seq<char>,
    role: CounterpartyRole,
    ty: CounterpartyType,
) -> Seq<(int, CounterpartyFill)> {
    seq![
        (0int, CounterpartyFill::NameFill(name)),
        (1int, CounterpartyFill::PhoneFill(phone)),
        (2int, CounterpartyFill::RoleFill(role)),
        (3int, CounterpartyFill::TypeFill(ty)),
    ]
}

/// Any permutation of this builder's four distinct setter calls reaches
/// the one complete configuration determined by the slot values alone.
/// The setters' contracts pin each call to its fill and leave the other
/// slots unchanged, and the complete builder renders
/// `spec_create_counterparty_props`, a function of exactly these values
/// and the optional email — so every order of the setters yields the
/// identical request.
pub proof fn lemma_counterparty_setters_commute(
    name: NameV,
    phone: Seq<char>,
    role: CounterpartyRole,
    ty: CounterpartyType,
    order: Seq<(int, CounterpartyFill)>,
)
    requires
        order.to_multiset() == counterparty_fills(name, phone, role, ty).to_multiset(),
    ensures
        apply_fills(Map::<int, CounterpartyFill>::empty(), order) == Map::<
            int,
            CounterpartyFill,
        >::empty().insert(0, CounterpartyFill::NameFill(name)).insert(
            1,
            CounterpartyFill::PhoneFill(phone),
        ).insert(2, CounterpartyFill::RoleFill(role)).insert(3, CounterpartyFill::TypeFill(ty)),
{
    let base = counterparty_fills(name, phone, role, ty);
    assert(distinct_slots(base)) by {
        assert(base[0].0 == 0 && base[1].0 == 1 && base[2].0 == 2 && base[3].0 == 3);
    }
    lemma_fill_order_irrelevant(base, order);
    let m0 = Map::<int, CounterpartyFill>::empty();
    let s1 = seq![(0int, CounterpartyFill::NameFill(name))];
    let s2 = s1.push((1int, CounterpartyFill::PhoneFill(phone)));
    let s3 = s2.push((2int, CounterpartyFill::RoleFill(role)));
    assert(base =~= s3.push((3int, CounterpartyFill::TypeFill(ty))));
    assert(s1.drop_last() =~= Seq::<(int, CounterpartyFill)>::empty());
    assert(apply_fills(m0, Seq::<(int, CounterpartyFill)>::empty()) == m0);
    assert(apply_fills(m0, s1) == m0.insert(0, CounterpartyFill::NameFill(name)));
    assert(s2.drop_last() == s1);
    assert(apply_fills(m0, s2) == apply_fills(m0, s1).insert(
        1,
        CounterpartyFill::PhoneFill(phone),
    ));
    assert(s3.drop_last() == s2);
    assert(apply_fills(m0, s3) == apply_fills(m0, s2).insert(2, CounterpartyFill::RoleFill(role)));
    assert(base.drop_last() == s3);
    assert(apply_fills(m0, base) == apply_fills(m0, s3).insert(
        3,
        CounterpartyFill::TypeFill(ty),
    ));
}

} // verus!
