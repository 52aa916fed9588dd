//! The outside error types that the translations take.

use vstd::prelude::*;

use argon2::Error as HashError;
use async_graphql::Error as GraphqlError;
use diesel::result::Error as DieselError;
use jsonwebtoken::errors::Error as JwtError;
use r2d2::Error as PoolError;

verus! {

#[verifier::external_type_specification]
#[verifier::external_body]
pub struct ExDieselError(DieselError);

#[verifier::external_type_specification]
#[verifier::external_body]
pub struct ExJwtError(JwtError);

#[verifier::external_type_specification]
#[verifier::external_body]
pub struct ExPoolError(PoolError);

#[verifier::external_type_specification]
#[verifier::external_body]
pub struct ExHashError(HashError);

#[verifier::external_type_specification]
#[verifier::external_body]
pub struct ExGraphqlError(GraphqlError);

} // verus!
