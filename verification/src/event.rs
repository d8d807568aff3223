//! Classification of an inbound or outbound datum: one individual value, one
//! object record, or the explicit unset marker — plus the routing metadata
//! (interface and path) attached to an inbound event.

use vstd::prelude::*;

use crate::aggregate::AstarteObject;
use crate::aggregate::EntryView;
use crate::types::AstarteType;
use crate::types::AstarteTypeView;
use crate::types::type_eq;

verus! {

/// View of a [`Value`].
pub enum ValueView {
    Individual(AstarteTypeView),
    Object(Seq<EntryView>),
    Unset,
}

/// Data carried by a data event.
#[derive(Debug)]
pub enum Value {
    /// Individual data, from a datastream or a property.
    Individual(AstarteType),
    /// Object data, also called aggregate; only a datastream carries it.
    Object(AstarteObject),
    /// Unset of a property.
    Unset,
}

impl View for Value {
    type V = ValueView;

    open spec fn view(&self) -> ValueView {
        match self {
            Value::Individual(v) => ValueView::Individual(v@),
            Value::Object(o) => ValueView::Object(o@),
            Value::Unset => ValueView::Unset,
        }
    }
}

impl Value {
    /// Returns `true` if the datum is an individual value.
    pub fn is_individual(&self) -> (r: bool)
        ensures
            r == (self@ is Individual),
    {
        matches!(self, Value::Individual(..))
    }

    /// A reference to the individual value, or nothing for the other shapes:
    /// the caller decides whether that absence is an error.
    pub fn as_individual(&self) -> (r: Option<&AstarteType>)
        ensures
            self@ matches ValueView::Individual(v) ==> r matches Some(x) && x@ == v,
            !(self@ is Individual) ==> r is None,
    {
        if let Value::Individual(v) = self {
            Some(v)
        } else {
            None
        }
    }

    /// Consumes the datum into its individual value, or nothing for the
    /// other shapes.
    pub fn take_individual(self) -> (r: Option<AstarteType>)
        ensures
            self@ matches ValueView::Individual(v) ==> r matches Some(x) && x@ == v,
            !(self@ is Individual) ==> r is None,
    {
        if let Value::Individual(v) = self {
            Some(v)
        } else {
            None
        }
    }

    /// Returns `true` if the datum is an object record.
    pub fn is_object(&self) -> (r: bool)
        ensures
            r == (self@ is Object),
    {
        matches!(self, Value::Object(..))
    }

    /// A reference to the object record, or nothing for the other shapes.
    pub fn as_object(&self) -> (r: Option<&AstarteObject>)
        ensures
            self@ matches ValueView::Object(o) ==> r matches Some(x) && x@ == o,
            !(self@ is Object) ==> r is None,
    {
        if let Value::Object(o) = self {
            Some(o)
        } else {
            None
        }
    }

    /// Consumes the datum into its object record, or nothing for the other
    /// shapes.
    pub fn take_object(self) -> (r: Option<AstarteObject>)
        ensures
            self@ matches ValueView::Object(o) ==> r matches Some(x) && x@ == o,
            !(self@ is Object) ==> r is None,
    {
        if let Value::Object(o) = self {
            Some(o)
        } else {
            None
        }
    }

    /// Returns `true` if the datum is the unset marker.
    pub fn is_unset(&self) -> (r: bool)
        ensures
            r == (self@ is Unset),
    {
        matches!(self, Value::Unset)
    }
}

impl PartialEq for Value {
    /// Structural equality: same classification, equal payload.
    fn eq(&self, other: &Self) -> (r: bool) {
        match (self, other) {
            (Value::Individual(a), Value::Individual(b)) => type_eq(a, b),
            (Value::Object(a), Value::Object(b)) => a.object_eq(b),
            (Value::Unset, Value::Unset) => true,
            _ => false,
        }
    }
}

impl vstd::std_specs::cmp::PartialEqSpecImpl for Value {
    open spec fn obeys_eq_spec() -> bool {
        true
    }

    open spec fn eq_spec(&self, other: &Self) -> bool {
        self@ == other@
    }
}

/// View of a [`DataEvent`].
pub struct DataEventView {
    pub interface: Seq<char>,
    pub path: Seq<char>,
    pub data: ValueView,
}

/// One inbound datum with the routing metadata the platform attached to it.
/// The interface and path are not part of the datum's own identity, but the
/// validation protocol compares them alongside it.
#[derive(Debug)]
pub struct DataEvent {
    /// Dot-namespaced identifier of the interface the datum belongs to.
    pub interface: String,
    /// Slash-delimited endpoint path under the interface's namespace.
    pub path: String,
    /// The datum itself.
    pub data: Value,
}

impl View for DataEvent {
    type V = DataEventView;

    open spec fn view(&self) -> DataEventView {
        DataEventView { interface: self.interface@, path: self.path@, data: self.data@ }
    }
}

} // verus!
