//! Storage engine of a memcached-compatible cache: versioned records with
//! compare-and-swap updates, lazy expiration and numeric delta operations,
//! together with the validation rules of the server's command line.

pub mod memcache;
