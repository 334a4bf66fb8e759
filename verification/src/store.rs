//! The handle to the backing store. The gateway makes it once, when it
//! starts, and carries it; no session talks to the store yet.

use vstd::prelude::*;
use redis::Client;
use redis::RedisError;

verus! {

/// The client of the `redis` crate: an address that was found sound, and
/// no connection yet.
#[verifier::external_type_specification]
#[verifier::external_body]
pub struct ExClient(Client);

/// Why the `redis` crate refuses something.
#[verifier::external_type_specification]
#[verifier::external_body]
pub struct ExRedisError(RedisError);

/// `Client::clone`: a client is its address, and the copy is equal to it.
pub assume_specification[ <Client as Clone>::clone ](client: &Client) -> (copy: Client)
    ensures
        copy == *client,
;

/// Whether the `redis` crate takes a text for the address of a store.
pub uninterp spec fn store_address_is_sound(url: Seq<char>) -> bool;

/// `Client::open` on a string: the address is parsed and checked, and no
/// connection is made. Whether that succeeds depends on the text alone.
#[verifier::external_body]
fn open(url: String) -> (opened: Result<Client, RedisError>)
    ensures
        opened is Ok <==> store_address_is_sound(url@),
{
    Client::open(url)
}

#[derive(Debug, Clone)]
pub struct RedisClient {
    client: Client,
}

impl RedisClient {
    /// The client that the handle holds.
    pub closed spec fn client(&self) -> Client {
        self.client
    }

    /// The handle for what opening a client gave: the handle that holds
    /// the client, or the very error that the opening ended in.
    pub fn from_opened(opened: Result<Client, RedisError>) -> (made: Result<Self, RedisError>)
        ensures
            match made {
                Ok(handle) => opened == Ok::<Client, RedisError>(handle.client()),
                Err(error) => opened == Err::<Client, RedisError>(error),
            },
    {
        match opened {
            Ok(client) => Ok(Self { client }),
            Err(error) => Err(error),
        }
    }

    /// A handle to the store at an address, where the `redis` crate takes
    /// the address, and its error where it does not. No connection is
    /// made.
    pub fn new(url: String) -> (made: Result<Self, RedisError>)
        ensures
            made is Ok <==> store_address_is_sound(url@),
    {
        Self::from_opened(open(url))
    }
}

} // verus!
