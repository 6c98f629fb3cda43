//! TLS orbits: the rustls and yTLS blueprints, which drive a TLS state
//! machine between a Left (ciphertext) and a Right (cleartext) side, and the
//! A/B test harness that runs them.
pub mod ab_driver;
pub mod ab_injector;
pub mod ab_io_orbit;
pub mod ab_io_std;
pub mod ab_ytls;
pub mod error;
pub mod position;
pub mod rustls_api;
pub mod rustls_blueprint;
pub mod ytls_blueprint;

pub use ab_driver::{
    teapot_expected_response, teapot_hostname, testing_ctx, AbServerCtx, ExpectedFailure, Orbit,
    TestingCtx,
};
pub use ab_injector::{ab_read_injector, AppRequest, InjectorError};
pub use ab_io_orbit::{AbIoLeft, AbIoRight};
pub use ab_io_std::{AbStream, AbStreamForward};
pub use error::TlsError;
pub use position::TlsPosition;
pub use rustls_blueprint::{
    IpAddr, TlsClient, TlsClientConfig, TlsContext, TlsServer, TlsServerConfig,
    TlsServerIdentifier,
};
pub use ytls_blueprint::ConfigError;
