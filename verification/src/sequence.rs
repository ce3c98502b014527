//! The narrow interface to outside representations: a vector is built from
//! an ordered sequence of scalars and gives its components back as one.
//!
//! Two rules for reading exist. A host language hands over a list of three
//! or four numbers, three standing for a purely spatial vector. A structured
//! data format holds exactly four elements, read one after the other. A
//! sequence of any other length is reported as an error; no vector is built
//! from part of one.
use crate::complex::Complex;
use crate::field::{Field, RealNumberLike};
use crate::vector::LorentzVector;
use vstd::prelude::*;

verus! {

/// Why a list from a host language is no vector.
#[derive(Debug, Clone, Copy, PartialEq, Eq, Structural)]
pub enum ConversionError {
    /// The list has neither three nor four elements.
    InvalidLength,
}

/// Why a sequence of decoded elements is no vector.
#[derive(Debug, Clone, Copy, PartialEq, Eq, Structural)]
pub enum DecodeError {
    /// The sequence is empty: the `t` component is missing.
    MissingT,
    /// The sequence ends after one element: the `x` component is missing.
    MissingX,
    /// The sequence ends after two elements: the `y` component is missing.
    MissingY,
    /// The sequence ends after three elements: the `z` component is missing.
    MissingZ,
    /// The sequence holds more than four elements.
    Surplus,
}

impl ConversionError {
    /// The text of the error.
    pub fn message(&self) -> (r: &'static str)
        ensures
            r@ == "Invalid list length for LorentzVector conversion"@,
    {
        "Invalid list length for LorentzVector conversion"
    }
}

impl DecodeError {
    /// The text of the error, as a sentence.
    pub open spec fn message_spec(self) -> Seq<char> {
        match self {
            DecodeError::MissingT => "Cannot read t-component"@,
            DecodeError::MissingX => "Cannot read x-component"@,
            DecodeError::MissingY => "Cannot read y-component"@,
            DecodeError::MissingZ => "Cannot read z-component"@,
            DecodeError::Surplus => "More than four components"@,
        }
    }

    /// The text of the error.
    pub fn message(&self) -> (r: &'static str)
        ensures
            r@ == self.message_spec(),
    {
        match self {
            DecodeError::MissingT => "Cannot read t-component",
            DecodeError::MissingX => "Cannot read x-component",
            DecodeError::MissingY => "Cannot read y-component",
            DecodeError::MissingZ => "Cannot read z-component",
            DecodeError::Surplus => "More than four components",
        }
    }
}

impl<T: Field> LorentzVector<T> {
    /// The components in the order `t`, `x`, `y`, `z`.
    pub open spec fn to_sequence_spec(self) -> Seq<T> {
        seq![self.t, self.x, self.y, self.z]
    }

    /// The vector that a list from a host language stands for: four
    /// elements are `t`, `x`, `y`, `z`; three are `x`, `y`, `z` of a purely
    /// spatial vector, whose `t` is zero; any other length is an error.
    pub open spec fn from_sequence_spec(s: Seq<T>) -> Result<Self, ConversionError> {
        if s.len() == 3 {
            Ok(LorentzVector { t: T::zero_spec(), x: s[0], y: s[1], z: s[2] })
        } else if s.len() == 4 {
            Ok(LorentzVector { t: s[0], x: s[1], y: s[2], z: s[3] })
        } else {
            Err(ConversionError::InvalidLength)
        }
    }

    /// The vector that a sequence of decoded elements stands for: exactly
    /// four elements are `t`, `x`, `y`, `z`; a shorter sequence lacks the
    /// component at which it ends, a longer one has a surplus.
    pub open spec fn decode_spec(s: Seq<T>) -> Result<Self, DecodeError> {
        if s.len() == 0 {
            Err(DecodeError::MissingT)
        } else if s.len() == 1 {
            Err(DecodeError::MissingX)
        } else if s.len() == 2 {
            Err(DecodeError::MissingY)
        } else if s.len() == 3 {
            Err(DecodeError::MissingZ)
        } else if s.len() == 4 {
            Ok(LorentzVector { t: s[0], x: s[1], y: s[2], z: s[3] })
        } else {
            Err(DecodeError::Surplus)
        }
    }

    /// The four components in the order `t`, `x`, `y`, `z`.
    pub fn to_array(&self) -> (r: [T; 4])
        ensures
            r@ == self.to_sequence_spec(),
    {
        [self.t, self.x, self.y, self.z]
    }

    /// Builds a vector from a list of three or four scalars, as a host
    /// language hands it over.
    pub fn from_sequence(v: &[T]) -> (r: Result<Self, ConversionError>)
        ensures
            r == Self::from_sequence_spec(v@),
    {
        if v.len() == 3 {
            Ok(LorentzVector::from_args(T::zero(), v[0], v[1], v[2]))
        } else if v.len() == 4 {
            Ok(LorentzVector::from_slice(v))
        } else {
            Err(ConversionError::InvalidLength)
        }
    }

    /// Builds a vector from the elements decoded from a structured data
    /// format, which are four, in the order `t`, `x`, `y`, `z`.
    pub fn decode(elements: &[T]) -> (r: Result<Self, DecodeError>)
        ensures
            r == Self::decode_spec(elements@),
    {
        let n = elements.len();
        if n == 0 {
            Err(DecodeError::MissingT)
        } else if n == 1 {
            Err(DecodeError::MissingX)
        } else if n == 2 {
            Err(DecodeError::MissingY)
        } else if n == 3 {
            Err(DecodeError::MissingZ)
        } else if n == 4 {
            Ok(LorentzVector::from_args(elements[0], elements[1], elements[2], elements[3]))
        } else {
            Err(DecodeError::Surplus)
        }
    }
}

impl<T: RealNumberLike> LorentzVector<Complex<T>> {
    /// The components in the order `t`, `x`, `y`, `z`, each as the pair of
    /// its real and its imaginary part.
    pub open spec fn to_pairs_spec(self) -> Seq<(T, T)> {
        seq![
            (self.t.re, self.t.im),
            (self.x.re, self.x.im),
            (self.y.re, self.y.im),
            (self.z.re, self.z.im),
        ]
    }

    /// The complex number that a pair of a real and an imaginary part
    /// stands for.
    pub open spec fn pair_spec(p: (T, T)) -> Complex<T> {
        Complex { re: p.0, im: p.1 }
    }

    /// The complex vector that a list of pairs from a host language stands
    /// for: four pairs are `t`, `x`, `y`, `z`; three are `x`, `y`, `z` of a
    /// purely spatial vector, whose `t` is zero; any other length is an
    /// error.
    pub open spec fn from_pairs_spec(s: Seq<(T, T)>) -> Result<Self, ConversionError> {
        if s.len() == 3 {
            Ok(
                LorentzVector {
                    t: Complex { re: T::zero_spec(), im: T::zero_spec() },
                    x: Self::pair_spec(s[0]),
                    y: Self::pair_spec(s[1]),
                    z: Self::pair_spec(s[2]),
                },
            )
        } else if s.len() == 4 {
            Ok(
                LorentzVector {
                    t: Self::pair_spec(s[0]),
                    x: Self::pair_spec(s[1]),
                    y: Self::pair_spec(s[2]),
                    z: Self::pair_spec(s[3]),
                },
            )
        } else {
            Err(ConversionError::InvalidLength)
        }
    }

    /// The four components in the order `t`, `x`, `y`, `z`, each as the
    /// pair of its real and its imaginary part.
    pub fn to_pairs(&self) -> (r: [(T, T); 4])
        ensures
            r@ == self.to_pairs_spec(),
    {
        [
            (self.t.re, self.t.im),
            (self.x.re, self.x.im),
            (self.y.re, self.y.im),
            (self.z.re, self.z.im),
        ]
    }

    /// Builds a complex vector from a list of three or four pairs of a real
    /// and an imaginary part, as a host language hands it over.
    pub fn from_pairs(v: &[(T, T)]) -> (r: Result<Self, ConversionError>)
        ensures
            r == Self::from_pairs_spec(v@),
    {
        if v.len() == 3 {
            Ok(
                LorentzVector::from_args(
                    Complex::new(T::zero(), T::zero()),
                    Complex::new(v[0].0, v[0].1),
                    Complex::new(v[1].0, v[1].1),
                    Complex::new(v[2].0, v[2].1),
                ),
            )
        } else if v.len() == 4 {
            Ok(
                LorentzVector::from_args(
                    Complex::new(v[0].0, v[0].1),
                    Complex::new(v[1].0, v[1].1),
                    Complex::new(v[2].0, v[2].1),
                    Complex::new(v[3].0, v[3].1),
                ),
            )
        } else {
            Err(ConversionError::InvalidLength)
        }
    }
}

} // verus!
