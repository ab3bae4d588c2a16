#[allow(unused_imports)]
use jsonwebtoken::{Algorithm, Validation};

#[test]
fn test() {}
