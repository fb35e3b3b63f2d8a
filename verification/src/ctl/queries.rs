//! The requests that the client builds from the user's arguments before it
//! sends them: metrics configuration, cluster queries and certificate
//! queries.
use vstd::prelude::*;
use vstd::string::*;

use crate::ctl::reply::CommandError;

verus! {

/// The metrics subcommands of the command line.
#[derive(Clone, Copy, PartialEq, Eq, Debug)]
pub enum MetricsCmd {
    Enable,
    Disable,
    Clear,
    Get,
}

/// How the proxy is asked to change its metrics.
#[derive(Clone, Copy, PartialEq, Eq, Debug)]
pub enum MetricsSetting {
    Enabled(bool),
    Clear,
}

/// Which clusters a cluster query asks about.
#[derive(PartialEq, Eq, Debug)]
pub enum ClusterQuery {
    ClusterId(String),
    Domain { hostname: String, path: Option<String> },
    /// The hashes of every cluster.
    Hashes,
}

/// Which certificates a certificate query asks about.
#[derive(PartialEq, Eq, Debug)]
pub enum CertificateQuery {
    All,
    Fingerprint(Vec<u8>),
    Domain(String),
}

/// Why a hexadecimal string could not be decoded.
#[derive(Clone, Copy, PartialEq, Eq, Debug)]
pub enum HexError {
    /// The byte at `index` is no hexadecimal digit.
    InvalidHexCharacter { c: char, index: usize },
    /// The string has an odd number of bytes.
    OddLength,
    /// The string does not have the length of the array it decodes into.
    InvalidStringLength,
}

pub open spec fn spec_metrics_setting(cmd: MetricsCmd) -> Result<MetricsSetting, CommandError> {
    match cmd {
        MetricsCmd::Enable => Ok(MetricsSetting::Enabled(true)),
        MetricsCmd::Disable => Ok(MetricsSetting::Enabled(false)),
        MetricsCmd::Clear => Ok(MetricsSetting::Clear),
        MetricsCmd::Get => Err(CommandError::NotAMetricsConfiguration),
    }
}

/// How a metrics command configures the proxy's metrics.
pub fn metrics_setting(cmd: MetricsCmd) -> (res: Result<MetricsSetting, CommandError>)
    ensures
        res == spec_metrics_setting(cmd),
{
    match cmd {
        MetricsCmd::Enable => Ok(MetricsSetting::Enabled(true)),
        MetricsCmd::Disable => Ok(MetricsSetting::Enabled(false)),
        MetricsCmd::Clear => Ok(MetricsSetting::Clear),
        MetricsCmd::Get => Err(CommandError::NotAMetricsConfiguration),
    }
}

// ---------------------------------------------------------------------------
// Domains
// ---------------------------------------------------------------------------

pub open spec fn has_no_slash(s: Seq<char>) -> bool {
    forall|i: int| 0 <= i < s.len() ==> #[trigger] s[i] != '/'
}

/// `domain` split at its first `/`: `hostname` is what comes before it;
/// `path` is the `/` and what follows it, or `None` where there is no `/`.
pub open spec fn is_domain_split(
    domain: Seq<char>,
    hostname: Seq<char>,
    path: Option<Seq<char>>,
) -> bool {
    &&& has_no_slash(hostname)
    &&& match path {
        None => domain == hostname,
        Some(p) => p.len() > 0 && p[0] == '/' && domain == hostname + p,
    }
}

/// A domain and an optional path, split at the first `/`; the path keeps
/// its leading `/`.
pub fn split_domain(domain: &str) -> (res: (String, Option<String>))
    ensures
        is_domain_split(domain@, res.0@, match res.1 {
            Some(p) => Some(p@),
            None => None,
        }),
{
    let n = domain.unicode_len();
    let mut i: usize = 0;
    while i < n && domain.get_char(i) != '/'
        invariant
            n == domain@.len(),
            i <= n,
            forall|j: int| 0 <= j < i ==> #[trigger] domain@[j] != '/',
        decreases n - i,
    {
        i = i + 1;
    }
    let hostname = String::from_str(domain.substring_char(0, i));
    if i == n {
        proof {
            assert(domain@.subrange(0, n as int) =~= domain@);
        }
        (hostname, None)
    } else {
        proof {
            reveal_strlit("/");
        }
        let rest = domain.substring_char(i + 1, n);
        let path = String::from_str("/").concat(rest);
        proof {
            assert(domain@ =~= hostname@ + path@);
        }
        (hostname, Some(path))
    }
}

pub open spec fn spec_cluster_query_shape(
    cluster_id: Option<String>,
    domain: Option<String>,
    res: Result<ClusterQuery, CommandError>,
) -> bool {
    match (cluster_id, domain) {
        (Some(_), Some(_)) => res == Err::<ClusterQuery, CommandError>(
            CommandError::ClusterIdAndDomain,
        ),
        (Some(id), None) => res matches Ok(ClusterQuery::ClusterId(q)) && q@ == id@,
        (None, Some(d)) => res matches Ok(ClusterQuery::Domain { hostname, path })
            && is_domain_split(d@, hostname@, match path {
            Some(p) => Some(p@),
            None => None,
        }),
        (None, None) => res == Ok::<ClusterQuery, CommandError>(ClusterQuery::Hashes),
    }
}

/// The cluster query for a cluster id, a domain with an optional path, or,
/// with neither, the hashes of every cluster. Both at once are refused.
pub fn cluster_query(cluster_id: &Option<String>, domain: &Option<String>) -> (res: Result<
    ClusterQuery,
    CommandError,
>)
    ensures
        spec_cluster_query_shape(*cluster_id, *domain, res),
{
    match (cluster_id, domain) {
        (Some(_), Some(_)) => Err(CommandError::ClusterIdAndDomain),
        (Some(id), None) => Ok(ClusterQuery::ClusterId(id.clone())),
        (None, Some(d)) => {
            let (hostname, path) = split_domain(d.as_str());
            Ok(ClusterQuery::Domain { hostname, path })
        },
        (None, None) => Ok(ClusterQuery::Hashes),
    }
}

// ---------------------------------------------------------------------------
// Fingerprints
// ---------------------------------------------------------------------------

pub open spec fn is_hex_digit(b: u8) -> bool {
    (48 <= b <= 57) || (65 <= b <= 70) || (97 <= b <= 102)
}

pub open spec fn hex_digit_value(b: u8) -> int {
    if 48 <= b <= 57 {
        b - 48
    } else if 65 <= b <= 70 {
        b - 55
    } else {
        b - 87
    }
}

/// Decoding of a hexadecimal string given as bytes: an odd length is
/// refused first, then the first byte that is no digit, upper or lower case;
/// otherwise each pair of digits gives one byte, high digit first.
pub open spec fn spec_hex_decode(s: Seq<u8>) -> Result<Seq<u8>, HexError> {
    if s.len() % 2 != 0 {
        Err(HexError::OddLength)
    } else if exists|i: int| 0 <= i < s.len() && !is_hex_digit(#[trigger] s[i]) {
        let i = choose|i: int|
            0 <= i < s.len() && !is_hex_digit(#[trigger] s[i]) && forall|j: int|
                0 <= j < i ==> is_hex_digit(#[trigger] s[j]);
        Err(HexError::InvalidHexCharacter { c: s[i] as char, index: i as usize })
    } else {
        Ok(
            Seq::new(
                s.len() / 2,
                |k: int| (hex_digit_value(s[2 * k]) * 16 + hex_digit_value(s[2 * k + 1])) as u8,
            ),
        )
    }
}

/// `hex::decode` on a byte string, with its error carried over variant for
/// variant.
#[verifier::external_body]
fn hex_decode(data: &[u8]) -> (res: Result<Vec<u8>, HexError>)
    ensures
        match res {
            Ok(v) => spec_hex_decode(data@) == Ok::<Seq<u8>, HexError>(v@),
            Err(e) => spec_hex_decode(data@) == Err::<Seq<u8>, HexError>(e),
        },
{
    match hex::decode(data) {
        Ok(v) => Ok(v),
        Err(hex::FromHexError::InvalidHexCharacter { c, index }) => Err(
            HexError::InvalidHexCharacter { c, index },
        ),
        Err(hex::FromHexError::OddLength) => Err(HexError::OddLength),
        Err(hex::FromHexError::InvalidStringLength) => Err(HexError::InvalidStringLength),
    }
}

pub open spec fn spec_certificate_query_shape(
    fingerprint: Option<String>,
    domain: Option<String>,
    res: Result<CertificateQuery, CommandError>,
) -> bool {
    match (fingerprint, domain) {
        (None, None) => res == Ok::<CertificateQuery, CommandError>(CertificateQuery::All),
        (Some(f), None) => match spec_hex_decode(vstd::utf8::encode_utf8(f@)) {
            Ok(bytes) => res matches Ok(CertificateQuery::Fingerprint(v)) && v@ == bytes,
            Err(e) => res == Err::<CertificateQuery, CommandError>(
                CommandError::InvalidFingerprint(e),
            ),
        },
        (None, Some(d)) => res matches Ok(CertificateQuery::Domain(q)) && q@ == d@,
        (Some(_), Some(_)) => res == Err::<CertificateQuery, CommandError>(
            CommandError::FingerprintAndDomain,
        ),
    }
}

/// The certificate query for a hexadecimal fingerprint, a domain, or, with
/// neither, every certificate. Both at once are refused.
pub fn certificate_query(fingerprint: &Option<String>, domain: &Option<String>) -> (res: Result<
    CertificateQuery,
    CommandError,
>)
    ensures
        spec_certificate_query_shape(*fingerprint, *domain, res),
{
    match (fingerprint, domain) {
        (None, None) => Ok(CertificateQuery::All),
        (Some(f), None) => match hex_decode(f.as_str().as_bytes()) {
            Err(e) => Err(CommandError::InvalidFingerprint(e)),
            Ok(v) => Ok(CertificateQuery::Fingerprint(v)),
        },
        (None, Some(d)) => Ok(CertificateQuery::Domain(d.clone())),
        (Some(_), Some(_)) => Err(CommandError::FingerprintAndDomain),
    }
}

/// A domain has one split only: the hostname runs to the first `/`.
pub proof fn law_domain_split_unique(
    domain: Seq<char>,
    h1: Seq<char>,
    p1: Option<Seq<char>>,
    h2: Seq<char>,
    p2: Option<Seq<char>>,
)
    requires
        is_domain_split(domain, h1, p1),
        is_domain_split(domain, h2, p2),
    ensures
        h1 == h2,
        p1 == p2,
{
    assert forall|i: int| 0 <= i < h1.len() implies #[trigger] domain[i] == h1[i] by {
        match p1 {
            None => {},
            Some(p) => assert((h1 + p)[i] == h1[i]),
        }
    }
    assert forall|i: int| 0 <= i < h2.len() implies #[trigger] domain[i] == h2[i] by {
        match p2 {
            None => {},
            Some(p) => assert((h2 + p)[i] == h2[i]),
        }
    }
    if h1.len() < h2.len() {
        match p1 {
            None => {},
            Some(p) => {
                assert(domain[h1.len() as int] == p[0]);
                assert(domain[h1.len() as int] == h2[h1.len() as int]);
            },
        }
        assert(false);
    }
    if h2.len() < h1.len() {
        match p2 {
            None => {},
            Some(p) => {
                assert(domain[h2.len() as int] == p[0]);
                assert(domain[h2.len() as int] == h1[h2.len() as int]);
            },
        }
        assert(false);
    }
    assert forall|i: int| 0 <= i < h1.len() implies h1[i] == h2[i] by {
        assert(domain[i] == h1[i]);
        assert(domain[i] == h2[i]);
    }
    assert(h1 =~= h2);
    match (p1, p2) {
        (Some(a), Some(b)) => {
            assert(a =~= domain.skip(h1.len() as int));
            assert(b =~= domain.skip(h2.len() as int));
        },
        (None, Some(b)) => {
            assert(domain.len() == h1.len());
            assert((h2 + b).len() > h2.len());
        },
        (Some(a), None) => {
            assert(domain.len() == h2.len());
            assert((h1 + a).len() > h1.len());
        },
        (None, None) => {},
    }
}

/// Enabling and disabling configure metrics on and off, clearing clears
/// them, and any other metrics command is refused.
pub proof fn law_metrics_setting(cmd: MetricsCmd)
    ensures
        (spec_metrics_setting(cmd) is Err) <==> (cmd is Get),
        cmd is Get ==> spec_metrics_setting(cmd) == Err::<MetricsSetting, CommandError>(
            CommandError::NotAMetricsConfiguration,
        ),
        cmd is Enable ==> spec_metrics_setting(cmd) == Ok::<MetricsSetting, CommandError>(
            MetricsSetting::Enabled(true),
        ),
        cmd is Disable ==> spec_metrics_setting(cmd) == Ok::<MetricsSetting, CommandError>(
            MetricsSetting::Enabled(false),
        ),
        cmd is Clear ==> spec_metrics_setting(cmd) == Ok::<MetricsSetting, CommandError>(
            MetricsSetting::Clear,
        ),
{
}

/// A cluster query is refused exactly when both a cluster id and a domain
/// are given; with neither it asks for the hashes; a cluster id is passed
/// on as given; a domain is split into a hostname without `/` and a path
/// that together give the domain back.
pub proof fn law_cluster_query(
    cluster_id: Option<String>,
    domain: Option<String>,
    res: Result<ClusterQuery, CommandError>,
)
    requires
        spec_cluster_query_shape(cluster_id, domain, res),
    ensures
        (res is Err) <==> (cluster_id is Some && domain is Some),
        res is Err ==> res == Err::<ClusterQuery, CommandError>(CommandError::ClusterIdAndDomain),
        (res == Ok::<ClusterQuery, CommandError>(ClusterQuery::Hashes)) <==> (cluster_id is None
            && domain is None),
        cluster_id is Some && domain is None ==> (res matches Ok(ClusterQuery::ClusterId(_))),
        cluster_id is None && domain is Some ==> (res matches Ok(ClusterQuery::Domain { .. })),
        match res {
            Ok(ClusterQuery::ClusterId(q)) => domain is None && cluster_id is Some && q@
                == cluster_id.unwrap()@,
            Ok(ClusterQuery::Domain { hostname, path }) => cluster_id is None && domain is Some
                && has_no_slash(hostname@) && domain.unwrap()@ == hostname@ + match path {
                Some(p) => p@,
                None => Seq::<char>::empty(),
            } && (path matches Some(p) ==> p@.len() > 0 && p@[0] == '/'),
            _ => true,
        },
{
    if let Ok(ClusterQuery::Domain { hostname, path }) = res {
        if path is None {
            assert(hostname@ + Seq::<char>::empty() =~= hostname@);
        }
    }
}

/// A certificate query is refused exactly when both a fingerprint and a
/// domain are given, or the fingerprint is not hexadecimal; with neither it
/// asks for every certificate; a domain is passed on as given; a
/// fingerprint is passed on as the bytes its hexadecimal digits decode to.
pub proof fn law_certificate_query(
    fingerprint: Option<String>,
    domain: Option<String>,
    res: Result<CertificateQuery, CommandError>,
)
    requires
        spec_certificate_query_shape(fingerprint, domain, res),
    ensures
        (res == Err::<CertificateQuery, CommandError>(CommandError::FingerprintAndDomain)) <==> (
        fingerprint is Some && domain is Some),
        (res == Ok::<CertificateQuery, CommandError>(CertificateQuery::All)) <==> (fingerprint is None
            && domain is None),
        fingerprint is Some && domain is None ==> (res matches Ok(CertificateQuery::Fingerprint(_))
            || res matches Err(CommandError::InvalidFingerprint(_))),
        fingerprint is None && domain is Some ==> (res matches Ok(CertificateQuery::Domain(_))),
        match res {
            Ok(CertificateQuery::Domain(q)) => fingerprint is None && domain is Some && q@
                == domain.unwrap()@,
            Ok(CertificateQuery::Fingerprint(v)) => domain is None && fingerprint is Some
                && spec_hex_decode(vstd::utf8::encode_utf8(fingerprint.unwrap()@)) == Ok::<
                Seq<u8>,
                HexError,
            >(v@),
            Err(CommandError::InvalidFingerprint(e)) => domain is None && fingerprint is Some
                && spec_hex_decode(vstd::utf8::encode_utf8(fingerprint.unwrap()@)) == Err::<
                Seq<u8>,
                HexError,
            >(e),
            _ => true,
        },
{
}

} // verus!
