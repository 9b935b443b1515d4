//! Warnings: nothing is left out in silence.
use vstd::prelude::*;

use crate::model::{CatalogEntry, NatService, PublicIp, Volume};
use crate::oapi::fetch::{Event, Stage};
use crate::oapi::notices::{entry_notice, public_ip_id_notice};
use crate::oapi::InputView;
use crate::table::Identified;

verus! {

/// A price is not known if and only if there is a notice that says why.
pub proof fn law_unknown_prices_are_noticed(
    input: InputView,
    service: Seq<char>,
    type_: Seq<char>,
    operation: Seq<char>,
)
    ensures
        input.price(service, type_, operation) is None <==> input.price_notice(
            service,
            type_,
            operation,
        ) is Some,
{
}

/// A catalog entry or a public IP that was read is not stored if and only if there
/// is a notice that says why.
pub proof fn law_items_that_are_not_stored_are_noticed(entry: CatalogEntry, public_ip: PublicIp)
    ensures
        entry.spec_key() is None <==> entry_notice(entry) is Some,
        public_ip.spec_key() is None <==> public_ip_id_notice(public_ip) is Some,
{
}

/// After the public IPs were read the snapshots are passed over if and only if
/// there is a notice that says why.
pub proof fn law_snapshots_that_are_not_read_are_noticed<E>(
    input: InputView,
    answer: Option<Vec<PublicIp>>,
)
    ensures
        input.task_at(Stage::PublicIps.spec_next()).stage() != Stage::Snapshots
            <==> input.skip_notice(Event::<E>::PublicIps(Ok(answer))) is Some,
{
}

/// A volume that is not listed has a notice. One that is listed has none, unless it
/// is charged for IOPS of which the number is not known.
pub proof fn law_volumes_that_are_not_listed_are_noticed(
    input: InputView,
    read_date: Option<Seq<char>>,
    id: Seq<char>,
    volume: Volume,
)
    ensures
        input.volume_resource(read_date, id, volume) is None ==> input.volume_notices(
            volume,
        ).len() > 0,
        input.volume_resource(read_date, id, volume) is Some && (volume.iops is Some
            || volume.volume_type->0@ != "io1"@) ==> input.volume_notices(volume).len() == 0,
{
}

/// A public IP is not listed if and only if there is a notice that says why.
pub proof fn law_public_ips_that_are_not_listed_are_noticed(
    input: InputView,
    read_date: Option<Seq<char>>,
    id: Seq<char>,
    public_ip: PublicIp,
)
    ensures
        input.public_ip_resource(read_date, id, public_ip) is None <==> input.public_ip_notice(
            id,
            public_ip,
        ) is Some,
{
}

/// A NAT service is listed with a price if and only if there is no notice about it.
pub proof fn law_nat_services_without_a_price_are_noticed(
    input: InputView,
    read_date: Option<Seq<char>>,
    key: Seq<char>,
    nat_service: NatService,
)
    ensures
        (input.nat_service_resource(read_date, nat_service) matches Some(listed)
            && listed.price_product_per_nat_service_per_hour is Some)
            <==> input.nat_service_notices(key, nat_service).len() == 0,
{
}

/// The snapshots are not listed if and only if there is a notice that says why.
pub proof fn law_snapshots_that_are_not_listed_are_noticed(input: InputView)
    ensures
        input.snapshot_price() is None <==> input.snapshot_notices().len() > 0,
{
}

} // verus!
