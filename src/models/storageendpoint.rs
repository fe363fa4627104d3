//! The fixed set of regional storage hosts and their names.
use vstd::prelude::*;
use crate::errors::Error;
use crate::text::{concat2, same_text};

verus! {

/// A regional storage host of the provider.
#[derive(Debug, Clone, Copy, PartialEq, Eq, Structural)]
pub enum StorageEndpoint {
    Falkenstein,
    London,
    NewYork,
    LosAngeles,
    SingaPore,
    Stockholm,
    SaoPaulo,
    Johannesburg,
    Sydney,
}

/// The hostname of each region.
pub open spec fn hostname_of(e: StorageEndpoint) -> Seq<char> {
    match e {
        StorageEndpoint::Falkenstein => "storage.bunnycdn.com"@,
        StorageEndpoint::London => "uk.storage.bunnycdn.com"@,
        StorageEndpoint::NewYork => "ny.storage.bunnycdn.com"@,
        StorageEndpoint::LosAngeles => "la.storage.bunnycdn.com"@,
        StorageEndpoint::SingaPore => "sg.storage.bunnycdn.com"@,
        StorageEndpoint::Stockholm => "se.storage.bunnycdn.com"@,
        StorageEndpoint::SaoPaulo => "br.storage.bunnycdn.com"@,
        StorageEndpoint::Johannesburg => "jh.storage.bunnycdn.com"@,
        StorageEndpoint::Sydney => "syd.storage.bunnycdn.com"@,
    }
}

/// The scheme put before a hostname to make a base URL.
pub open spec fn https_scheme() -> Seq<char> {
    "https://"@
}

/// The base URL of a region.
pub open spec fn url_of(e: StorageEndpoint) -> Seq<char> {
    https_scheme() + hostname_of(e)
}

/// The region whose hostname is exactly `name`, if there is one.
pub open spec fn endpoint_named(name: Seq<char>) -> Option<StorageEndpoint> {
    if name == hostname_of(StorageEndpoint::Falkenstein) {
        Some(StorageEndpoint::Falkenstein)
    } else if name == hostname_of(StorageEndpoint::London) {
        Some(StorageEndpoint::London)
    } else if name == hostname_of(StorageEndpoint::NewYork) {
        Some(StorageEndpoint::NewYork)
    } else if name == hostname_of(StorageEndpoint::LosAngeles) {
        Some(StorageEndpoint::LosAngeles)
    } else if name == hostname_of(StorageEndpoint::SingaPore) {
        Some(StorageEndpoint::SingaPore)
    } else if name == hostname_of(StorageEndpoint::Stockholm) {
        Some(StorageEndpoint::Stockholm)
    } else if name == hostname_of(StorageEndpoint::SaoPaulo) {
        Some(StorageEndpoint::SaoPaulo)
    } else if name == hostname_of(StorageEndpoint::Johannesburg) {
        Some(StorageEndpoint::Johannesburg)
    } else if name == hostname_of(StorageEndpoint::Sydney) {
        Some(StorageEndpoint::Sydney)
    } else {
        None
    }
}

impl StorageEndpoint {
    /// The hostname of this region.
    pub fn hostname(&self) -> (r: &'static str)
        ensures
            r@ == hostname_of(*self),
    {
        match self {
            StorageEndpoint::Falkenstein => "storage.bunnycdn.com",
            StorageEndpoint::London => "uk.storage.bunnycdn.com",
            StorageEndpoint::NewYork => "ny.storage.bunnycdn.com",
            StorageEndpoint::LosAngeles => "la.storage.bunnycdn.com",
            StorageEndpoint::SingaPore => "sg.storage.bunnycdn.com",
            StorageEndpoint::Stockholm => "se.storage.bunnycdn.com",
            StorageEndpoint::SaoPaulo => "br.storage.bunnycdn.com",
            StorageEndpoint::Johannesburg => "jh.storage.bunnycdn.com",
            StorageEndpoint::Sydney => "syd.storage.bunnycdn.com",
        }
    }

    /// The base URL of this region: the hostname behind `https://`.
    pub fn url(&self) -> (r: String)
        ensures
            r@ == url_of(*self),
    {
        concat2("https://", self.hostname())
    }

    /// The region with exactly this hostname; any other text is refused.
    pub fn from_str(storage_endpoint_name: &str) -> (r: Result<StorageEndpoint, Error>)
        ensures
            match r {
                Ok(e) => endpoint_named(storage_endpoint_name@) == Some(e),
                Err(_) => endpoint_named(storage_endpoint_name@) is None,
            },
    {
        let n = storage_endpoint_name;
        if same_text(n, "storage.bunnycdn.com") {
            Ok(StorageEndpoint::Falkenstein)
        } else if same_text(n, "uk.storage.bunnycdn.com") {
            Ok(StorageEndpoint::London)
        } else if same_text(n, "ny.storage.bunnycdn.com") {
            Ok(StorageEndpoint::NewYork)
        } else if same_text(n, "la.storage.bunnycdn.com") {
            Ok(StorageEndpoint::LosAngeles)
        } else if same_text(n, "sg.storage.bunnycdn.com") {
            Ok(StorageEndpoint::SingaPore)
        } else if same_text(n, "se.storage.bunnycdn.com") {
            Ok(StorageEndpoint::Stockholm)
        } else if same_text(n, "br.storage.bunnycdn.com") {
            Ok(StorageEndpoint::SaoPaulo)
        } else if same_text(n, "jh.storage.bunnycdn.com") {
            Ok(StorageEndpoint::Johannesburg)
        } else if same_text(n, "syd.storage.bunnycdn.com") {
            Ok(StorageEndpoint::Sydney)
        } else {
            let message = concat2("Invalid Endpoint Name - Provided ", n);
            Err(Error::new_from_message(message.as_str()))
        }
    }
}

/// The length of the scheme and the first two characters of each hostname,
/// which tell the hostnames apart.
pub proof fn lemma_hostname_shape(e: StorageEndpoint)
    ensures
        https_scheme().len() == 8,
        hostname_of(e).len() >= 20,
        hostname_of(e)[0] == (match e {
            StorageEndpoint::Falkenstein => 's',
            StorageEndpoint::London => 'u',
            StorageEndpoint::NewYork => 'n',
            StorageEndpoint::LosAngeles => 'l',
            StorageEndpoint::SingaPore => 's',
            StorageEndpoint::Stockholm => 's',
            StorageEndpoint::SaoPaulo => 'b',
            StorageEndpoint::Johannesburg => 'j',
            StorageEndpoint::Sydney => 's',
        }),
        hostname_of(e)[1] == (match e {
            StorageEndpoint::Falkenstein => 't',
            StorageEndpoint::London => 'k',
            StorageEndpoint::NewYork => 'y',
            StorageEndpoint::LosAngeles => 'a',
            StorageEndpoint::SingaPore => 'g',
            StorageEndpoint::Stockholm => 'e',
            StorageEndpoint::SaoPaulo => 'r',
            StorageEndpoint::Johannesburg => 'h',
            StorageEndpoint::Sydney => 'y',
        }),
{
    reveal_strlit("https://");
    reveal_strlit("storage.bunnycdn.com");
    reveal_strlit("uk.storage.bunnycdn.com");
    reveal_strlit("ny.storage.bunnycdn.com");
    reveal_strlit("la.storage.bunnycdn.com");
    reveal_strlit("sg.storage.bunnycdn.com");
    reveal_strlit("se.storage.bunnycdn.com");
    reveal_strlit("br.storage.bunnycdn.com");
    reveal_strlit("jh.storage.bunnycdn.com");
    reveal_strlit("syd.storage.bunnycdn.com");
}

/// Every region is found again from its base URL with the `https://` scheme
/// stripped: the URL starts with that scheme, and what follows it names this
/// region and no other.
pub proof fn lemma_endpoint_url_round_trip(e: StorageEndpoint)
    ensures
        url_of(e).subrange(0, 8) == https_scheme(),
        endpoint_named(url_of(e).subrange(8, url_of(e).len() as int)) == Some(e),
{
    lemma_hostname_shape(e);
    lemma_hostname_shape(StorageEndpoint::Falkenstein);
    lemma_hostname_shape(StorageEndpoint::London);
    lemma_hostname_shape(StorageEndpoint::NewYork);
    lemma_hostname_shape(StorageEndpoint::LosAngeles);
    lemma_hostname_shape(StorageEndpoint::SingaPore);
    lemma_hostname_shape(StorageEndpoint::Stockholm);
    lemma_hostname_shape(StorageEndpoint::SaoPaulo);
    lemma_hostname_shape(StorageEndpoint::Johannesburg);
    lemma_hostname_shape(StorageEndpoint::Sydney);
    assert(url_of(e).subrange(0, 8) =~= https_scheme());
    assert(url_of(e).subrange(8, url_of(e).len() as int) =~= hostname_of(e));
}

} // verus!
