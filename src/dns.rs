use vstd::prelude::*;

verus! {

/// An IP address, as its bytes in network order.
pub enum IpAddress {
    V4([u8; 4]),
    V6([u8; 16]),
}

/// Abstract IP address.
pub enum IpModel {
    V4(Seq<u8>),
    V6(Seq<u8>),
}

impl IpAddress {
    pub open spec fn model(&self) -> IpModel {
        match self {
            IpAddress::V4(a) => IpModel::V4(a@),
            IpAddress::V6(a) => IpModel::V6(a@),
        }
    }

    pub fn copy(&self) -> (r: IpAddress)
        ensures
            r.model() == self.model(),
    {
        match self {
            IpAddress::V4(a) => IpAddress::V4(*a),
            IpAddress::V6(a) => IpAddress::V6(*a),
        }
    }
}

/// Record type of an IPv4 address record.
pub const TYPE_A: u32 = 1;

/// Record type of an IPv6 address record.
pub const TYPE_AAAA: u32 = 28;

/// One answer of a lookup: its record type and, where its data reads as an IP
/// address, that address.
pub struct DnsRecord {
    pub rtype: u32,
    pub addr: Option<IpAddress>,
}

/// Why a name could not be resolved.
#[derive(PartialEq, Eq, Structural, Debug, Clone, Copy)]
pub enum ResolveError {
    ResolutionFailed,
}

/// Whether a record contributes an address.
pub open spec fn usable(r: DnsRecord) -> bool {
    (r.rtype == TYPE_A || r.rtype == TYPE_AAAA) && r.addr is Some
}

/// The addresses of the usable records, in order.
pub open spec fn usable_addresses(rs: Seq<DnsRecord>) -> Seq<IpModel>
    decreases rs.len(),
{
    if rs.len() == 0 {
        Seq::empty()
    } else {
        let rest = usable_addresses(rs.drop_last());
        if usable(rs.last()) {
            rest.push(rs.last().addr->0.model())
        } else {
            rest
        }
    }
}

/// Keeps the addresses of the A and AAAA records, in order, and drops the rest.
/// No address at all is a resolution failure.
pub fn select_addresses(records: &[DnsRecord]) -> (r: Result<Vec<IpAddress>, ResolveError>)
    ensures
        match r {
            Ok(v) => v@.len() > 0 && v@.map_values(|a: IpAddress| a.model())
                == usable_addresses(records@),
            Err(e) => e == ResolveError::ResolutionFailed && usable_addresses(records@).len()
                == 0,
        },
{
    let mut out: Vec<IpAddress> = Vec::new();
    let mut i: usize = 0;
    while i < records.len()
        invariant
            0 <= i <= records@.len(),
            out@.map_values(|a: IpAddress| a.model()) == usable_addresses(
                records@.subrange(0, i as int),
            ),
        decreases records@.len() - i,
    {
        let rec = &records[i];
        let ghost pre = records@.subrange(0, i as int);
        assert(records@.subrange(0, i + 1).drop_last() =~= pre);
        if rec.rtype == TYPE_A || rec.rtype == TYPE_AAAA {
            match &rec.addr {
                Some(a) => {
                    out.push(a.copy());
                    assert(out@.map_values(|a: IpAddress| a.model()) =~= usable_addresses(
                        records@.subrange(0, i + 1),
                    ));
                },
                None => {},
            }
        }
        i = i + 1;
    }
    assert(records@.subrange(0, records@.len() as int) =~= records@);
    if out.len() == 0 {
        Err(ResolveError::ResolutionFailed)
    } else {
        Ok(out)
    }
}

} // verus!
