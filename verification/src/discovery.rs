//! Discovering services in a Kubernetes cluster: which objects Maremma's annotations mark,
//! and which addresses and ports of a service are kept.

use vstd::prelude::*;
use crate::errors::MaremmaError;
use crate::json::opt_text;
use crate::text::{starts_with, str_eq, views};

verus! {

/// The prefix of Maremma's annotations
pub const MAREMMA_SERVICE_NAME: &'static str = "maremma.terminaloutcomes.com";

/// The annotation that makes discovery skip a namespace
pub const IGNORE_ANNOTATION: &'static str = "maremma.terminaloutcomes.com/ignore";

/// Does any annotation's key start with Maremma's prefix?
pub open spec fn marks_maremma(annotations: Seq<(String, String)>) -> bool {
    exists|i: int|
        0 <= i < annotations.len() && MAREMMA_SERVICE_NAME@.is_prefix_of(
            #[trigger] annotations[i].0@,
        )
}

/// Does an object carry one of Maremma's annotations? An object without annotations does
/// not.
pub fn has_maremma_annotations(input: Option<&Vec<(String, String)>>) -> (r: bool)
    ensures
        r == (input matches Some(a) && marks_maremma(a@)),
{
    if let Some(annotations) = input {
        let mut i: usize = 0;
        while i < annotations.len()
            invariant
                input == Some(annotations),
                i <= annotations@.len(),
                forall|j: int|
                    0 <= j < i ==> !MAREMMA_SERVICE_NAME@.is_prefix_of(#[trigger] annotations@[j].0@),
            decreases annotations@.len() - i,
        {
            if starts_with(annotations[i].0.as_str(), MAREMMA_SERVICE_NAME) {
                assert(MAREMMA_SERVICE_NAME@.is_prefix_of(annotations@[i as int].0@));
                return true;
            }
            i += 1;
        }
    }
    false
}

/// The annotations whose keys start with Maremma's prefix, in order.
pub open spec fn maremma_annotations(annotations: Seq<(String, String)>) -> Seq<(Seq<char>, Seq<char>)>
    decreases annotations.len(),
{
    if annotations.len() == 0 {
        Seq::empty()
    } else {
        maremma_annotations(annotations.drop_last()) + if MAREMMA_SERVICE_NAME@.is_prefix_of(
            annotations.last().0@,
        ) {
            seq![(annotations.last().0@, annotations.last().1@)]
        } else {
            Seq::empty()
        }
    }
}

/// The views of some pairs of texts.
pub open spec fn pair_views(v: Seq<(String, String)>) -> Seq<(Seq<char>, Seq<char>)> {
    v.map_values(|p: (String, String)| (p.0@, p.1@))
}

/// Keeps the annotations whose keys start with Maremma's prefix.
pub fn filter_maremma_annotations(annotations: &Vec<(String, String)>) -> (r: Vec<(String, String)>)
    ensures
        pair_views(r@) == maremma_annotations(annotations@),
{
    let mut out: Vec<(String, String)> = Vec::new();
    let mut i: usize = 0;
    while i < annotations.len()
        invariant
            i <= annotations@.len(),
            pair_views(out@) == maremma_annotations(annotations@.take(i as int)),
        decreases annotations@.len() - i,
    {
        proof {
            assert(annotations@.take(i + 1).drop_last() =~= annotations@.take(i as int));
        }
        if starts_with(annotations[i].0.as_str(), MAREMMA_SERVICE_NAME) {
            let k = annotations[i].0.clone();
            let v = annotations[i].1.clone();
            proof {
                assert(pair_views(out@.push((k, v))) =~= pair_views(out@).push((k@, v@)));
            }
            out.push((k, v));
        } else {
            proof {
                assert(pair_views(out@) =~= pair_views(out@) + Seq::<(Seq<char>, Seq<char>)>::empty());
            }
        }
        i += 1;
    }
    proof {
        assert(annotations@.take(i as int) =~= annotations@);
    }
    out
}

/// The value of the first annotation with `key`, if any.
pub open spec fn annotation_value(annotations: Seq<(String, String)>, key: Seq<char>) -> Option<Seq<char>>
    decreases annotations.len(),
{
    if annotations.len() == 0 {
        None
    } else if annotations[0].0@ == key {
        Some(annotations[0].1@)
    } else {
        annotation_value(annotations.drop_first(), key)
    }
}

/// Is a namespace skipped? It is when its ignore annotation is `true`.
pub fn namespace_ignored(annotations: Option<&Vec<(String, String)>>) -> (r: bool)
    ensures
        r == (annotations matches Some(a) && annotation_value(a@, IGNORE_ANNOTATION@) == Some(
            "true"@,
        )),
{
    match annotations {
        None => false,
        Some(a) => {
            let mut i: usize = 0;
            proof {
                assert(a@.skip(0) =~= a@);
            }
            while i < a.len()
                invariant
                    annotations == Some(a),
                    i <= a@.len(),
                    annotation_value(a@, IGNORE_ANNOTATION@) == annotation_value(a@.skip(i as int), IGNORE_ANNOTATION@),
                decreases a@.len() - i,
            {
                proof {
                    assert(a@.skip(i as int).drop_first() =~= a@.skip(i + 1));
                }
                assert(a@.skip(i as int)[0] == a@[i as int]);
                if str_eq(a[i].0.as_str(), IGNORE_ANNOTATION) {
                    return str_eq(a[i].1.as_str(), "true");
                }
                i += 1;
            }
            proof {
                assert(a@.skip(i as int) =~= Seq::<(String, String)>::empty());
            }
            false
        },
    }
}

/// Is an address listed for a service a real one? Empty addresses and `None` are not.
pub open spec fn is_listed_address(a: Seq<char>) -> bool {
    a.len() > 0 && a != "None"@
}

/// The addresses that are listed for real, in order.
pub open spec fn listed_addresses(v: Seq<Seq<char>>) -> Seq<Seq<char>>
    decreases v.len(),
{
    if v.len() == 0 {
        Seq::empty()
    } else {
        listed_addresses(v.drop_last()) + if is_listed_address(v.last()) {
            seq![v.last()]
        } else {
            Seq::empty()
        }
    }
}

/// Keeps the addresses of a service that are listed for real.
pub fn kept_addresses(addresses: &Vec<String>) -> (r: Vec<String>)
    ensures
        views(r@) == listed_addresses(views(addresses@)),
{
    let mut out: Vec<String> = Vec::new();
    let mut i: usize = 0;
    while i < addresses.len()
        invariant
            i <= addresses@.len(),
            views(out@) == listed_addresses(views(addresses@.take(i as int))),
        decreases addresses@.len() - i,
    {
        proof {
            assert(views(addresses@.take(i + 1)) =~= views(addresses@.take(i as int)).push(
                addresses@[i as int]@,
            ));
            assert(views(addresses@.take(i + 1)).drop_last() =~= views(addresses@.take(i as int)));
        }
        let a = &addresses[i];
        let keep = !a.as_str().is_empty() && !str_eq(a.as_str(), "None");
        proof {
            reveal_strlit("None");
        }
        if keep {
            let c = a.clone();
            proof {
                assert(views(out@.push(c)) =~= views(out@).push(c@));
            }
            out.push(c);
        } else {
            proof {
                assert(views(out@) =~= views(out@) + Seq::<Seq<char>>::empty());
            }
        }
        i += 1;
    }
    proof {
        assert(addresses@.take(i as int) =~= addresses@);
    }
    out
}

/// A service port as discovery keeps it: cut to 16 bits, and dropped where that is zero.
pub open spec fn kept_port(p: i32) -> Option<u16> {
    let cut = p % 65536;
    if cut == 0 {
        None
    } else {
        Some(cut as u16)
    }
}

/// The ports discovery keeps, in order.
pub open spec fn kept_ports(ports: Seq<i32>) -> Seq<u16>
    decreases ports.len(),
{
    if ports.len() == 0 {
        Seq::empty()
    } else {
        kept_ports(ports.drop_last()) + match kept_port(ports.last()) {
            Some(p) => seq![p],
            None => Seq::empty(),
        }
    }
}

/// Keeps the nonzero ports of a service, each cut to 16 bits.
pub fn service_ports(ports: &Vec<i32>) -> (r: Vec<u16>)
    ensures
        r@ == kept_ports(ports@),
{
    let mut out: Vec<u16> = Vec::new();
    let mut i: usize = 0;
    while i < ports.len()
        invariant
            i <= ports@.len(),
            out@ == kept_ports(ports@.take(i as int)),
        decreases ports@.len() - i,
    {
        proof {
            assert(ports@.take(i + 1).drop_last() =~= ports@.take(i as int));
        }
        let p = ports[i];
        let cut_pos: u32 = if p >= 0 {
            (p as u32) % 65536
        } else {
            let n: u32 = (-(p as i64)) as u32;
            let m: u32 = n % 65536;
            proof {
                assert((p as int) % 65536 == (if m == 0 {
                    0
                } else {
                    65536 - m
                })) by (nonlinear_arith)
                    requires
                        p < 0,
                        n == -(p as int),
                        m == n % 65536,
                ;
            }
            if m == 0 {
                0
            } else {
                65536 - m
            }
        };
        assert(cut_pos == (p as int) % 65536);
        if cut_pos != 0 {
            out.push(cut_pos as u16);
        } else {
            proof {
                assert(out@ =~= out@ + Seq::<u16>::empty());
            }
        }
        proof {
            assert(out@ =~= kept_ports(ports@.take(i + 1)));
        }
        i += 1;
    }
    proof {
        assert(ports@.take(i as int) =~= ports@);
    }
    out
}

/// A pod found with Maremma's annotations.
#[derive(Debug)]
pub struct K8sPod {
    /// Its namespace
    pub namespace: String,
    /// Its name
    pub name: String,
    /// Its annotations with Maremma's prefix
    pub annotations: Vec<(String, String)>,
}

/// An ingress found with Maremma's annotations.
#[derive(Debug)]
pub struct K8sIngress {
    /// Its name
    pub name: String,
    /// Its namespace
    pub namespace: String,
    /// Its annotations with Maremma's prefix
    pub annotations: Vec<(String, String)>,
}

/// The protocol of a discovered service.
#[derive(Clone, Copy, Debug, PartialEq, Eq, Structural)]
pub enum Protocol {
    /// TCP
    Tcp,
    /// UDP
    Udp,
    /// HTTP
    Http,
    /// Not known; what discovery sets
    Unknown,
}

/// A service found with Maremma's annotations. Addresses are kept as the cluster lists
/// them; reading them as IP addresses is left to the caller.
#[derive(Debug)]
pub struct K8sService {
    /// Its namespace
    pub namespace: String,
    /// Its name
    pub name: String,
    /// Its cluster addresses
    pub cluster_ips: Vec<String>,
    /// Its external addresses
    pub external_ips: Vec<String>,
    /// Its ports
    pub ports: Vec<u16>,
    /// Its protocol
    pub protocol: Protocol,
    /// Its annotations with Maremma's prefix
    pub annotations: Vec<(String, String)>,
}

fn filter_optional(annotations: Option<&Vec<(String, String)>>) -> (r: Vec<(String, String)>)
    ensures
        pair_views(r@) == match annotations {
            Some(a) => maremma_annotations(a@),
            None => Seq::empty(),
        },
{
    match annotations {
        Some(a) => filter_maremma_annotations(a),
        None => {
            let v: Vec<(String, String)> = Vec::new();
            proof {
                assert(pair_views(v@) =~= Seq::<(Seq<char>, Seq<char>)>::empty());
            }
            v
        },
    }
}

/// Describes a pod of a namespace: both must have names (the namespace's is looked at
/// first); its annotations with Maremma's prefix are kept.
pub fn discovered_pod(namespace: Option<String>, name: Option<String>, annotations: Option<&Vec<(String, String)>>) -> (r: Result<K8sPod, MaremmaError>)
    ensures
        namespace is None ==> (r matches Err(MaremmaError::InvalidInput(m)) && m@ == "No namespace?"@),
        namespace is Some && name is None ==> (r matches Err(MaremmaError::InvalidInput(m)) && m@ == "No pod name?"@),
        namespace is Some && name is Some ==> (r matches Ok(p) && Some(p.namespace@) == opt_text(namespace)
            && Some(p.name@) == opt_text(name) && pair_views(p.annotations@) == match annotations {
            Some(a) => maremma_annotations(a@),
            None => Seq::empty(),
        }),
{
    let namespace = match namespace {
        Some(n) => n,
        None => {
            return Err(MaremmaError::InvalidInput("No namespace?".to_owned()));
        },
    };
    let name = match name {
        Some(n) => n,
        None => {
            return Err(MaremmaError::InvalidInput("No pod name?".to_owned()));
        },
    };
    Ok(K8sPod { namespace, name, annotations: filter_optional(annotations) })
}

/// Describes an ingress of a namespace: both must have names (the ingress's is looked at
/// first); its annotations with Maremma's prefix are kept.
pub fn discovered_ingress(namespace: Option<String>, name: Option<String>, annotations: Option<&Vec<(String, String)>>) -> (r: Result<K8sIngress, MaremmaError>)
    ensures
        name is None ==> (r matches Err(MaremmaError::InvalidInput(m)) && m@ == "No ingress name?"@),
        name is Some && namespace is None ==> (r matches Err(MaremmaError::InvalidInput(m)) && m@ == "No namespace?"@),
        namespace is Some && name is Some ==> (r matches Ok(p) && Some(p.namespace@) == opt_text(namespace)
            && Some(p.name@) == opt_text(name) && pair_views(p.annotations@) == match annotations {
            Some(a) => maremma_annotations(a@),
            None => Seq::empty(),
        }),
{
    let name = match name {
        Some(n) => n,
        None => {
            return Err(MaremmaError::InvalidInput("No ingress name?".to_owned()));
        },
    };
    let namespace = match namespace {
        Some(n) => n,
        None => {
            return Err(MaremmaError::InvalidInput("No namespace?".to_owned()));
        },
    };
    Ok(K8sIngress { name, namespace, annotations: filter_optional(annotations) })
}

/// The addresses of a service: its single cluster address where it is a real one, then
/// the real ones of its list.
pub open spec fn service_cluster_ips(cluster_ip: Option<Seq<char>>, cluster_ips: Seq<Seq<char>>) -> Seq<Seq<char>> {
    (match cluster_ip {
        Some(ip) => if is_listed_address(ip) {
            seq![ip]
        } else {
            Seq::empty()
        },
        None => Seq::empty(),
    }) + listed_addresses(cluster_ips)
}

/// Describes a service of a namespace: both must have names (the namespace's is looked at
/// first). Its real cluster and external addresses, its nonzero ports and its annotations
/// with Maremma's prefix are kept.
pub fn discovered_service(
    namespace: Option<String>,
    name: Option<String>,
    annotations: Option<&Vec<(String, String)>>,
    cluster_ip: Option<String>,
    cluster_ips: &Vec<String>,
    external_ips: &Vec<String>,
    ports: &Vec<i32>,
) -> (r: Result<K8sService, MaremmaError>)
    ensures
        namespace is None ==> (r matches Err(MaremmaError::Generic(m)) && m@ == "No namespace?"@),
        namespace is Some && name is None ==> (r matches Err(MaremmaError::Generic(m)) && m@ == "No service name?"@),
        namespace is Some && name is Some ==> (r matches Ok(s) && Some(s.namespace@) == opt_text(namespace)
            && Some(s.name@) == opt_text(name) && pair_views(s.annotations@) == (match annotations {
            Some(a) => maremma_annotations(a@),
            None => Seq::empty(),
        }) && views(s.cluster_ips@) == service_cluster_ips(opt_text(cluster_ip), views(cluster_ips@))
            && views(s.external_ips@) == listed_addresses(views(external_ips@)) && s.ports@ == kept_ports(ports@)
            && s.protocol == Protocol::Unknown),
{
    let namespace = match namespace {
        Some(n) => n,
        None => {
            return Err(MaremmaError::Generic("No namespace?".to_owned()));
        },
    };
    let name = match name {
        Some(n) => n,
        None => {
            return Err(MaremmaError::Generic("No service name?".to_owned()));
        },
    };
    let mut ips: Vec<String> = Vec::new();
    if let Some(ip) = cluster_ip {
        if !ip.as_str().is_empty() && !str_eq(ip.as_str(), "None") {
            ips.push(ip);
        }
    }
    let ghost first = views(ips@);
    proof {
        reveal_strlit("None");
        assert(first == match opt_text(cluster_ip) {
            Some(ip) => if is_listed_address(ip) {
                seq![ip]
            } else {
                Seq::<Seq<char>>::empty()
            },
            None => Seq::<Seq<char>>::empty(),
        });
    }
    let mut rest = kept_addresses(cluster_ips);
    let ghost rest_view = views(rest@);
    let ghost before = ips@;
    ips.append(&mut rest);
    proof {
        assert(views(ips@) =~= first + rest_view);
    }
    Ok(K8sService {
        namespace,
        name,
        cluster_ips: ips,
        external_ips: kept_addresses(external_ips),
        ports: service_ports(ports),
        protocol: Protocol::Unknown,
        annotations: filter_optional(annotations),
    })
}

} // verus!
