//! JWK records, the builder that validates them, and key sets.

use vstd::prelude::*;
use crate::error::{JwkError, JwkErrorView};

verus! {

/// The mathematical content of a JWK record, and of a builder: one text per field.
pub struct JwkFields {
    pub kty: Seq<char>,
    pub use_: Option<Seq<char>>,
    pub alg: Option<Seq<char>>,
    pub kid: Option<Seq<char>>,
    pub n: Option<Seq<char>>,
    pub e: Option<Seq<char>>,
    pub crv: Option<Seq<char>>,
    pub x: Option<Seq<char>>,
    pub y: Option<Seq<char>>,
    pub d: Option<Seq<char>>,
}

impl JwkFields {
    /// The fields of a fresh builder: the key type and nothing else.
    pub open spec fn initial(kty: Seq<char>) -> JwkFields {
        JwkFields {
            kty,
            use_: None,
            alg: None,
            kid: None,
            n: None,
            e: None,
            crv: None,
            x: None,
            y: None,
            d: None,
        }
    }

    /// The key type is `"RSA"`, and modulus and exponent are both present.
    pub open spec fn is_complete_rsa(self) -> bool {
        self.kty == "RSA"@ && self.n is Some && self.e is Some
    }

    /// The key type is `"EC"`, and curve, `x` and `y` are all present.
    pub open spec fn is_complete_ec(self) -> bool {
        self.kty == "EC"@ && self.crv is Some && self.x is Some && self.y is Some
    }

    /// The fields carry everything that their key type makes mandatory.
    pub open spec fn is_complete(self) -> bool {
        self.is_complete_rsa() || self.is_complete_ec()
    }

    /// What building a JWK from these fields yields: the fields themselves when they are
    /// complete, else the error that belongs to their key type.
    pub open spec fn build_outcome(self) -> Result<JwkFields, JwkErrorView> {
        if self.kty == "RSA"@ {
            if self.n is Some && self.e is Some {
                Ok(self)
            } else {
                Err(JwkErrorView::MissingRsaParams)
            }
        } else if self.kty == "EC"@ {
            if self.crv is Some && self.x is Some && self.y is Some {
                Ok(self)
            } else {
                Err(JwkErrorView::MissingEcParams)
            }
        } else {
            Err(JwkErrorView::UnsupportedKeyType(self.kty))
        }
    }
}

/// One JSON Web Key.
///
/// `kty` is always present. Every other field is absent unless it was set; a serializer
/// omits absent fields.
#[derive(Debug)]
pub struct Jwk {
    /// Key type: `"RSA"` or `"EC"`.
    pub kty: String,
    /// Intended use of the key, such as `"sig"`.
    pub use_: Option<String>,
    /// Algorithm the key is meant for, such as `"RS256"`.
    pub alg: Option<String>,
    /// Key identifier.
    pub kid: Option<String>,
    /// RSA modulus, base64url.
    pub n: Option<String>,
    /// RSA public exponent, base64url.
    pub e: Option<String>,
    /// Name of the curve of an EC key.
    pub crv: Option<String>,
    /// `x` coordinate of an EC key, base64url.
    pub x: Option<String>,
    /// `y` coordinate of an EC key, base64url.
    pub y: Option<String>,
    /// Private part of the key; present only when the caller supplied it.
    pub d: Option<String>,
}

impl View for Jwk {
    type V = JwkFields;

    open spec fn view(&self) -> JwkFields {
        JwkFields {
            kty: self.kty@,
            use_: self.use_.deep_view(),
            alg: self.alg.deep_view(),
            kid: self.kid.deep_view(),
            n: self.n.deep_view(),
            e: self.e.deep_view(),
            crv: self.crv.deep_view(),
            x: self.x.deep_view(),
            y: self.y.deep_view(),
            d: self.d.deep_view(),
        }
    }
}

impl Jwk {
    /// The record carries the fields that its key type makes mandatory. Every record
    /// that [`JwkBuilder::build`] returns is well formed.
    pub open spec fn is_well_formed(&self) -> bool {
        self@.is_complete()
    }
}

/// A JSON Web Key Set: keys in the order in which the caller supplied them.
#[derive(Debug)]
pub struct Jwks {
    /// The keys of the set.
    pub keys: Vec<Jwk>,
}

impl View for Jwks {
    type V = Seq<JwkFields>;

    open spec fn view(&self) -> Seq<JwkFields> {
        self.keys@.map_values(|key: Jwk| key@)
    }
}

/// A staging area for the fields of one JWK.
///
/// Setters store their argument without looking at it; [`JwkBuilder::build`] alone
/// decides whether the staged fields make a key.
pub struct JwkBuilder {
    kty: String,
    use_: Option<String>,
    alg: Option<String>,
    kid: Option<String>,
    n: Option<String>,
    e: Option<String>,
    crv: Option<String>,
    x: Option<String>,
    y: Option<String>,
    d: Option<String>,
}

impl View for JwkBuilder {
    type V = JwkFields;

    closed spec fn view(&self) -> JwkFields {
        JwkFields {
            kty: self.kty@,
            use_: self.use_.deep_view(),
            alg: self.alg.deep_view(),
            kid: self.kid.deep_view(),
            n: self.n.deep_view(),
            e: self.e.deep_view(),
            crv: self.crv.deep_view(),
            x: self.x.deep_view(),
            y: self.y.deep_view(),
            d: self.d.deep_view(),
        }
    }
}

impl JwkBuilder {
    /// A builder for a key of type `kty`, with every other field absent.
    ///
    /// `kty` is stored as given; it is examined only by [`JwkBuilder::build`].
    pub fn new(kty: &str) -> (builder: Self)
        ensures
            builder@ == JwkFields::initial(kty@),
    {
        JwkBuilder {
            kty: kty.to_owned(),
            use_: None,
            alg: None,
            kid: None,
            n: None,
            e: None,
            crv: None,
            x: None,
            y: None,
            d: None,
        }
    }

    /// Stores `value` as the intended use (`use`), replacing any earlier one.
    pub fn set_key_use(&mut self, value: &str) -> (builder: &mut Self)
        ensures
            builder@ == (JwkFields { use_: Some(value@), ..old(self)@ }),
            *final(self) == *final(builder),
    {
        self.use_ = Some(value.to_owned());
        self
    }

    /// Stores `value` as the algorithm (`alg`), replacing any earlier one.
    pub fn set_algorithm(&mut self, value: &str) -> (builder: &mut Self)
        ensures
            builder@ == (JwkFields { alg: Some(value@), ..old(self)@ }),
            *final(self) == *final(builder),
    {
        self.alg = Some(value.to_owned());
        self
    }

    /// Stores `value` as the key identifier (`kid`), replacing any earlier one.
    pub fn set_key_id(&mut self, value: &str) -> (builder: &mut Self)
        ensures
            builder@ == (JwkFields { kid: Some(value@), ..old(self)@ }),
            *final(self) == *final(builder),
    {
        self.kid = Some(value.to_owned());
        self
    }

    /// Stores `value` as the RSA modulus (`n`), replacing any earlier one.
    pub fn set_modulus(&mut self, value: &str) -> (builder: &mut Self)
        ensures
            builder@ == (JwkFields { n: Some(value@), ..old(self)@ }),
            *final(self) == *final(builder),
    {
        self.n = Some(value.to_owned());
        self
    }

    /// Stores `value` as the RSA public exponent (`e`), replacing any earlier one.
    pub fn set_exponent(&mut self, value: &str) -> (builder: &mut Self)
        ensures
            builder@ == (JwkFields { e: Some(value@), ..old(self)@ }),
            *final(self) == *final(builder),
    {
        self.e = Some(value.to_owned());
        self
    }

    /// Stores `value` as the curve name (`crv`), replacing any earlier one.
    pub fn set_curve_type(&mut self, value: &str) -> (builder: &mut Self)
        ensures
            builder@ == (JwkFields { crv: Some(value@), ..old(self)@ }),
            *final(self) == *final(builder),
    {
        self.crv = Some(value.to_owned());
        self
    }

    /// Stores `value` as the `x` coordinate, replacing any earlier one.
    pub fn set_x_coordinate(&mut self, value: &str) -> (builder: &mut Self)
        ensures
            builder@ == (JwkFields { x: Some(value@), ..old(self)@ }),
            *final(self) == *final(builder),
    {
        self.x = Some(value.to_owned());
        self
    }

    /// Stores `value` as the `y` coordinate, replacing any earlier one.
    pub fn set_y_coordinate(&mut self, value: &str) -> (builder: &mut Self)
        ensures
            builder@ == (JwkFields { y: Some(value@), ..old(self)@ }),
            *final(self) == *final(builder),
    {
        self.y = Some(value.to_owned());
        self
    }

    /// Stores `value` as the private part (`d`), replacing any earlier one.
    pub fn set_private_key(&mut self, value: &str) -> (builder: &mut Self)
        ensures
            builder@ == (JwkFields { d: Some(value@), ..old(self)@ }),
            *final(self) == *final(builder),
    {
        self.d = Some(value.to_owned());
        self
    }

    /// Validates the staged fields and returns them as a JWK.
    ///
    /// An `"RSA"` key needs modulus and exponent, an `"EC"` key needs curve, `x` and `y`;
    /// no other key type is supported. Fields that the key type does not use are neither
    /// required nor rejected: whatever was staged is in the record. The builder is left as
    /// it was.
    pub fn build(&self) -> (result: Result<Jwk, JwkError>)
        ensures
            match self@.build_outcome() {
                Ok(fields) => result matches Ok(jwk) && jwk@ == fields && jwk.is_well_formed(),
                Err(error) => result matches Err(e) && e@ == error,
            },
    {
        let rsa = "RSA".to_owned();
        let ec = "EC".to_owned();
        if self.kty == rsa {
            if self.n.is_none() || self.e.is_none() {
                return Err(JwkError::MissingRsaParams);
            }
        } else if self.kty == ec {
            if self.crv.is_none() || self.x.is_none() || self.y.is_none() {
                return Err(JwkError::MissingEcParams);
            }
        } else {
            return Err(JwkError::UnsupportedKeyType(self.kty.clone()));
        }
        Ok(
            Jwk {
                kty: self.kty.clone(),
                use_: self.use_.clone(),
                alg: self.alg.clone(),
                kid: self.kid.clone(),
                n: self.n.clone(),
                e: self.e.clone(),
                crv: self.crv.clone(),
                x: self.x.clone(),
                y: self.y.clone(),
                d: self.d.clone(),
            },
        )
    }
}

/// The two supported key types are different names.
proof fn lemma_key_types_differ()
    ensures
        "RSA"@ != "EC"@,
{
    reveal_strlit("RSA");
    reveal_strlit("EC");
    assert("RSA"@.len() != "EC"@.len());
}

/// An `"RSA"` key is built exactly when modulus and exponent are both staged, whatever
/// the other fields hold. It is then made of the staged fields, all of them; otherwise
/// the error is `MissingRsaParams`.
pub proof fn lemma_rsa_needs_modulus_and_exponent(fields: JwkFields)
    requires
        fields.kty == "RSA"@,
    ensures
        fields.build_outcome() is Ok <==> fields.n is Some && fields.e is Some,
        fields.build_outcome() is Ok ==> fields.build_outcome() == Ok::<JwkFields, JwkErrorView>(
            fields,
        ),
        fields.build_outcome() is Err ==> fields.build_outcome() == Err::<
            JwkFields,
            JwkErrorView,
        >(JwkErrorView::MissingRsaParams),
{
}

/// An `"EC"` key is built exactly when curve, `x` and `y` are all staged, whatever the
/// other fields hold. It is then made of the staged fields, all of them; otherwise the
/// error is `MissingEcParams`.
pub proof fn lemma_ec_needs_curve_and_coordinates(fields: JwkFields)
    requires
        fields.kty == "EC"@,
    ensures
        fields.build_outcome() is Ok <==> fields.crv is Some && fields.x is Some && fields.y
            is Some,
        fields.build_outcome() is Ok ==> fields.build_outcome() == Ok::<JwkFields, JwkErrorView>(
            fields,
        ),
        fields.build_outcome() is Err ==> fields.build_outcome() == Err::<
            JwkFields,
            JwkErrorView,
        >(JwkErrorView::MissingEcParams),
{
    lemma_key_types_differ();
}

/// A key of any type but `"RSA"` and `"EC"` is never built, whatever is staged: the
/// error is `UnsupportedKeyType`, and it carries the key type as it was given.
pub proof fn lemma_other_key_types_are_unsupported(fields: JwkFields)
    requires
        fields.kty != "RSA"@,
        fields.kty != "EC"@,
    ensures
        fields.build_outcome() == Err::<JwkFields, JwkErrorView>(
            JwkErrorView::UnsupportedKeyType(fields.kty),
        ),
{
}

/// What is built is complete, and only what is complete is built.
pub proof fn lemma_built_iff_complete(fields: JwkFields)
    ensures
        fields.build_outcome() is Ok <==> fields.is_complete(),
{
    lemma_key_types_differ();
}

/// Gathers `keys` into a key set, in the order given.
///
/// Nothing is checked: the set may be empty, and two keys may share an identifier.
pub fn create_jwks(keys: Vec<Jwk>) -> (jwks: Jwks)
    ensures
        jwks.keys == keys,
        jwks@ == keys@.map_values(|key: Jwk| key@),
{
    Jwks { keys }
}

} // verus!
