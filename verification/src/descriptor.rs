//! The description of the function to curry, and the classification of what
//! it carries that the curried family cannot or need not keep.

use vstd::prelude::*;

verus! {

/// A function definition, as far as currying reads it. Types and attributes
/// are held as their source text and only carried through.
pub struct FunctionDescriptor {
    pub name: String,
    pub params: Vec<String>,
    pub return_type: String,
    pub is_const: bool,
    pub is_async: bool,
    pub has_receiver: bool,
    pub extra_attributes: Vec<String>,
}

/// A construct for which no family is generated.
#[derive(Clone, Copy, Debug, PartialEq, Eq, Structural)]
pub enum HardError {
    ReceiverParameterPresent,
    AsyncUnsupported,
}

/// A construct that is dropped from the generated family.
#[derive(Clone, Copy, Debug, PartialEq, Eq, Structural)]
pub enum Warning {
    AttributesIgnored,
    ConstQualifierDropped,
}

/// What there is to report of a function.
pub struct Diagnostics {
    pub warnings: Vec<Warning>,
    pub error: Option<HardError>,
}

/// The error that stops generation: a receiver is found before the
/// qualifiers are looked at.
pub open spec fn hard_error_of(has_receiver: bool, is_async: bool) -> Option<HardError> {
    if has_receiver {
        Some(HardError::ReceiverParameterPresent)
    } else if is_async {
        Some(HardError::AsyncUnsupported)
    } else {
        None
    }
}

/// The warnings, in the order in which the constructs are met: attributes
/// first, then the `const` qualifier, which is reached only where no
/// receiver has stopped the work before.
pub open spec fn warnings_of(attribute_count: int, has_receiver: bool, is_const: bool) -> Seq<
    Warning,
> {
    let attrs = if attribute_count > 0 {
        seq![Warning::AttributesIgnored]
    } else {
        Seq::empty()
    };
    if is_const && !has_receiver {
        attrs.push(Warning::ConstQualifierDropped)
    } else {
        attrs
    }
}

impl FunctionDescriptor {
    /// The number of parameters.
    pub open spec fn spec_arity(&self) -> int {
        self.params@.len() as int
    }

    /// The number of parameters.
    pub fn arity(&self) -> (n: usize)
        ensures
            n == self.spec_arity(),
    {
        self.params.len()
    }

    pub open spec fn spec_hard_error(&self) -> Option<HardError> {
        hard_error_of(self.has_receiver, self.is_async)
    }

    pub open spec fn spec_warnings(&self) -> Seq<Warning> {
        warnings_of(self.extra_attributes@.len() as int, self.has_receiver, self.is_const)
    }

    /// Classifies the constructs of the function: the warnings to surface,
    /// and the hard error, if there is one.
    pub fn diagnose(&self) -> (found: Diagnostics)
        ensures
            found.error == self.spec_hard_error(),
            found.warnings@ == self.spec_warnings(),
    {
        let mut warnings: Vec<Warning> = Vec::new();
        if self.extra_attributes.len() > 0 {
            warnings.push(Warning::AttributesIgnored);
        }
        let error = if self.has_receiver {
            Some(HardError::ReceiverParameterPresent)
        } else {
            if self.is_const {
                warnings.push(Warning::ConstQualifierDropped);
            }
            if self.is_async {
                Some(HardError::AsyncUnsupported)
            } else {
                None
            }
        };
        assert(warnings@ =~= self.spec_warnings());
        Diagnostics { warnings, error }
    }
}

} // verus!
