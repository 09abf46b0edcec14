//! Runtime values: what evaluating a node gives.

use vstd::prelude::*;

use crate::decimal::{format_integer, integer_text};

verus! {

/// A runtime value in contracts.
pub enum ObjectModel {
    Integer(i64),
    Boolean(bool),
    Error(Seq<char>),
    ReturnValue(Box<ObjectModel>),
}

/// The name of a value's kind, as diagnostics show it.
pub open spec fn kind_text(object: ObjectModel) -> Seq<char> {
    match object {
        ObjectModel::Integer(_) => "INTEGER"@,
        ObjectModel::Boolean(_) => "BOOLEAN"@,
        ObjectModel::Error(_) => "ERROR"@,
        ObjectModel::ReturnValue(_) => "RETURN_VALUE"@,
    }
}

/// The printed form of a value: an integer in decimal, a boolean as `true`
/// or `false`, an error as its message behind `ERROR: `, and a value on its
/// way out of a `return` as the value itself.
pub open spec fn inspect_text(object: ObjectModel) -> Seq<char>
    decreases object,
{
    match object {
        ObjectModel::Integer(value) => integer_text(value as int),
        ObjectModel::Boolean(value) => if value {
            "true"@
        } else {
            "false"@
        },
        ObjectModel::Error(message) => "ERROR: "@ + message,
        ObjectModel::ReturnValue(value) => inspect_text(*value),
    }
}

/// A 64-bit signed integer.
#[derive(Debug, PartialEq, Eq)]
pub struct Integer {
    pub value: i64,
}

/// A truth value.
#[derive(Debug, PartialEq, Eq)]
pub struct Boolean {
    pub value: bool,
}

/// What went wrong during evaluation. An error is a value like any other: it
/// is handed upwards and ends the evaluation of the statements around it.
#[derive(Debug, PartialEq, Eq)]
pub struct Error {
    pub message: String,
}

/// The value of a `return` statement on its way out of the statements that
/// enclose it.
#[derive(Debug, PartialEq, Eq)]
pub struct ReturnValue {
    pub value: Box<ObjectEnum>,
}

/// Any runtime value.
#[derive(Debug, PartialEq, Eq)]
pub enum ObjectEnum {
    Integer(Integer),
    Boolean(Boolean),
    Error(Error),
    ReturnValue(ReturnValue),
}

impl ObjectEnum {
    /// The value that this object stands for.
    pub open spec fn model(&self) -> ObjectModel
        decreases self,
    {
        match self {
            ObjectEnum::Integer(o) => ObjectModel::Integer(o.value),
            ObjectEnum::Boolean(o) => ObjectModel::Boolean(o.value),
            ObjectEnum::Error(o) => ObjectModel::Error(o.message@),
            ObjectEnum::ReturnValue(o) => ObjectModel::ReturnValue(Box::new(o.value.model())),
        }
    }
}

impl View for ObjectEnum {
    type V = ObjectModel;

    open spec fn view(&self) -> ObjectModel {
        self.model()
    }
}

impl View for Integer {
    type V = ObjectModel;

    open spec fn view(&self) -> ObjectModel {
        ObjectModel::Integer(self.value)
    }
}

impl View for Boolean {
    type V = ObjectModel;

    open spec fn view(&self) -> ObjectModel {
        ObjectModel::Boolean(self.value)
    }
}

impl View for Error {
    type V = ObjectModel;

    open spec fn view(&self) -> ObjectModel {
        ObjectModel::Error(self.message@)
    }
}

impl View for ReturnValue {
    type V = ObjectModel;

    open spec fn view(&self) -> ObjectModel {
        ObjectModel::ReturnValue(Box::new(self.value@))
    }
}

impl Clone for ObjectEnum {
    fn clone(&self) -> (copy: Self)
        ensures
            copy@ == self@,
        decreases self,
    {
        match self {
            ObjectEnum::Integer(o) => ObjectEnum::Integer(Integer { value: o.value }),
            ObjectEnum::Boolean(o) => ObjectEnum::Boolean(Boolean { value: o.value }),
            ObjectEnum::Error(o) => ObjectEnum::Error(Error { message: o.message.clone() }),
            ObjectEnum::ReturnValue(o) => {
                let inner = (&*o.value).clone();
                ObjectEnum::ReturnValue(ReturnValue { value: Box::new(inner) })
            },
        }
    }
}

impl ObjectEnum {
    /// An integer object.
    pub fn integer(value: i64) -> (object: Self)
        ensures
            object@ == ObjectModel::Integer(value),
    {
        ObjectEnum::Integer(Integer { value })
    }

    /// A boolean object.
    pub fn boolean(value: bool) -> (object: Self)
        ensures
            object@ == ObjectModel::Boolean(value),
    {
        ObjectEnum::Boolean(Boolean { value })
    }

    /// An error object with the given message.
    pub fn error(message: String) -> (object: Self)
        ensures
            object@ == ObjectModel::Error(message@),
    {
        ObjectEnum::Error(Error { message })
    }

    /// Whether this object is an error.
    pub fn is_error(&self) -> (found: bool)
        ensures
            found == (self@ is Error),
    {
        match self {
            ObjectEnum::Error(_) => true,
            _ => false,
        }
    }

    /// The name of this object's kind.
    pub fn Type(&self) -> (name: &'static str)
        ensures
            name@ == kind_text(self@),
    {
        match self {
            ObjectEnum::Integer(_) => "INTEGER",
            ObjectEnum::Boolean(_) => "BOOLEAN",
            ObjectEnum::Error(_) => "ERROR",
            ObjectEnum::ReturnValue(_) => "RETURN_VALUE",
        }
    }

    /// The printed form of this object.
    pub fn Inspect(&self) -> (text: String)
        ensures
            text@ == inspect_text(self@),
        decreases self,
    {
        match self {
            ObjectEnum::Integer(o) => format_integer(o.value),
            ObjectEnum::Boolean(o) => if o.value {
                String::from_str("true")
            } else {
                String::from_str("false")
            },
            ObjectEnum::Error(o) => {
                let mut text = String::from_str("ERROR: ");
                text.append(o.message.as_str());
                text
            },
            ObjectEnum::ReturnValue(o) => o.value.Inspect(),
        }
    }
}

} // verus!
