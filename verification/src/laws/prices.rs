//! Prices: each resource is listed at the price that the rows of the catalog quote
//! for it, and at no other.
use vstd::prelude::*;

use super::tables::lemma_row;
use super::terms::{account_text, named, quoted, quotes, text, told_apart};
use crate::model;
use crate::model::{entry_id, Price};
use crate::oapi::pricing::PublicIpCharge;
use crate::oapi::InputView;
use crate::resource::{NatServicesView, PublicIpView, SnapshotView, VolumeView};
use crate::table::{distinct_keys, has_key, lookup, position};

verus! {

/// The price of an operation is the one that the row under its name quotes.
pub proof fn law_price_is_the_quoted_one(
    input: InputView,
    service: Seq<char>,
    type_: Seq<char>,
    operation: Seq<char>,
    price: Option<Price>,
)
    requires
        told_apart(input.catalog),
        quotes(input.catalog, service, type_, operation, price),
    ensures
        input.price(service, type_, operation) == price,
{
    let rows = input.catalog;
    let id = entry_id(service, type_, operation);
    assert(id == named(service, type_, operation));
    if has_key(rows, id) {
        let at = position(rows, id);
        assert(rows[at].0 == id);
        if let Some(price) = price {
            let i = choose|i: int|
                0 <= i < rows.len() && #[trigger] rows[i].0 == id && rows[i].1.unit_price == Some(
                    price,
                );
            assert(rows[i].0 == rows[at].0);
        }
    }
}

/// An operation is quoted, at one price, or it is not.
pub proof fn law_one_price_is_quoted(
    input: InputView,
    service: Seq<char>,
    type_: Seq<char>,
    operation: Seq<char>,
    price: Option<Price>,
    other: Option<Price>,
)
    requires
        told_apart(input.catalog),
    ensures
        quotes(
            input.catalog,
            service,
            type_,
            operation,
            input.price(service, type_, operation),
        ),
        quoted(input.catalog, service, type_, operation) <==> input.price(
            service,
            type_,
            operation,
        ) is Some,
        quotes(input.catalog, service, type_, operation, price) && quotes(
            input.catalog,
            service,
            type_,
            operation,
            other,
        ) ==> price == other,
{
    let rows = input.catalog;
    let id = entry_id(service, type_, operation);
    assert(id == named(service, type_, operation));
    if has_key(rows, id) {
        let at = position(rows, id);
        assert(rows[at].0 == id);
        assert forall|i: int| 0 <= i < rows.len() && #[trigger] rows[i].0 == id implies i == at by {
            assert(rows[i].0 == rows[at].0);
        }
    }
    if quotes(rows, service, type_, operation, price) && quotes(
        rows,
        service,
        type_,
        operation,
        other,
    ) {
        law_price_is_the_quoted_one(input, service, type_, operation, price);
        law_price_is_the_quoted_one(input, service, type_, operation, other);
    }
}

/// A volume can be listed: its type and size are known, and the price of a GiB of
/// its type is quoted and, for the type `io1`, that of an IOPS.
pub open spec fn volume_can_be_listed(input: InputView, volume: model::Volume) -> bool {
    &&& volume.volume_type is Some
    &&& volume.size is Some
    &&& quoted(
        input.catalog,
        "TinaOS-FCU"@,
        "BSU:VolumeUsage:"@ + volume.volume_type->0@,
        "CreateVolume"@,
    )
    &&& volume.volume_type->0@ == "io1"@ ==> quoted(
        input.catalog,
        "TinaOS-FCU"@,
        "BSU:VolumeIOPS:io1"@,
        "CreateVolume"@,
    )
}

/// What is listed is this volume, under the identifier `id`, at the prices that are
/// quoted for its own type.
pub open spec fn is_that_volume(
    listed: VolumeView,
    input: InputView,
    read_date: Option<Seq<char>>,
    id: Seq<char>,
    volume: model::Volume,
) -> bool {
    &&& listed.osc_cost_version == Some("0.1.0"@)
    &&& listed.account_id == account_text(input)
    &&& listed.read_date_rfc3339 == read_date
    &&& listed.region == text(input.region)
    &&& listed.resource_id == Some(id)
    &&& listed.price_per_hour is None
    &&& listed.price_per_month is None
    &&& listed.volume_type == text(volume.volume_type)
    &&& listed.volume_size == volume.size
    &&& volume.iops is Some ==> listed.volume_iops == volume.iops
    &&& volume.iops is None ==> listed.volume_iops == Some(0i32)
    &&& quotes(
        input.catalog,
        "TinaOS-FCU"@,
        "BSU:VolumeUsage:"@ + volume.volume_type->0@,
        "CreateVolume"@,
        Some(listed.price_gb_per_month),
    )
    &&& volume.volume_type->0@ == "io1"@ ==> quotes(
        input.catalog,
        "TinaOS-FCU"@,
        "BSU:VolumeIOPS:io1"@,
        "CreateVolume"@,
        Some(listed.price_iops_per_month),
    )
    &&& volume.volume_type->0@ != "io1"@ ==> listed.price_iops_per_month.bits == 0
}

proof fn lemma_io1()
    ensures
        "BSU:VolumeIOPS:"@ + "io1"@ == "BSU:VolumeIOPS:io1"@,
{
    reveal_strlit("BSU:VolumeIOPS:");
    reveal_strlit("io1");
    reveal_strlit("BSU:VolumeIOPS:io1");
    assert("BSU:VolumeIOPS:"@ + "io1"@ =~= "BSU:VolumeIOPS:io1"@);
}

/// A volume is listed if and only if its type and size are known and its prices are
/// quoted, and then at the price of a GiB that is quoted for its own type and, for
/// the type `io1`, at the price of an IOPS that is.
pub proof fn law_volume_costs_what_its_type_costs(
    input: InputView,
    read_date: Option<Seq<char>>,
    id: Seq<char>,
    volume: model::Volume,
)
    requires
        told_apart(input.catalog),
    ensures
        input.volume_resource(read_date, id, volume) is Some <==> volume_can_be_listed(
            input,
            volume,
        ),
        input.volume_resource(read_date, id, volume) matches Some(listed) ==> is_that_volume(
            listed,
            input,
            read_date,
            id,
            volume,
        ),
{
    lemma_io1();
    if let Some(volume_type) = volume.volume_type {
        law_one_price_is_quoted(
            input,
            "TinaOS-FCU"@,
            "BSU:VolumeUsage:"@ + volume_type@,
            "CreateVolume"@,
            None,
            None,
        );
        law_one_price_is_quoted(
            input,
            "TinaOS-FCU"@,
            "BSU:VolumeIOPS:io1"@,
            "CreateVolume"@,
            None,
            None,
        );
    }
}

/// The prices of a type of volume are those that are quoted for this type: nothing
/// that the catalog quotes for another one counts. Any type but `io1` keeps the
/// price of an IOPS that it came with.
pub proof fn law_prices_of_a_type_are_its_own(
    input: InputView,
    volume_type: Seq<char>,
    otherwise: Price,
    gb: Option<Price>,
    iops: Option<Price>,
)
    requires
        told_apart(input.catalog),
        quotes(
            input.catalog,
            "TinaOS-FCU"@,
            "BSU:VolumeUsage:"@ + volume_type,
            "CreateVolume"@,
            gb,
        ),
        quotes(input.catalog, "TinaOS-FCU"@, "BSU:VolumeIOPS:io1"@, "CreateVolume"@, iops),
    ensures
        input.volume_gb_price(volume_type) == gb,
        volume_type == "io1"@ ==> input.volume_iops_price(volume_type, otherwise) == iops,
        volume_type != "io1"@ ==> input.volume_iops_price(volume_type, otherwise) == Some(
            otherwise,
        ),
{
    lemma_io1();
    law_price_is_the_quoted_one(
        input,
        "TinaOS-FCU"@,
        "BSU:VolumeUsage:"@ + volume_type,
        "CreateVolume"@,
        gb,
    );
    law_price_is_the_quoted_one(
        input,
        "TinaOS-FCU"@,
        "BSU:VolumeIOPS:io1"@,
        "CreateVolume"@,
        iops,
    );
}

/// A volume has the prices of its type, and its own type, size and IOPS, if and
/// only if it can be listed.
pub proof fn law_volume_specs_are_those_of_the_volume(input: InputView, volume: model::Volume)
    requires
        told_apart(input.catalog),
    ensures
        input.volume_specs(volume) is Some <==> volume_can_be_listed(input, volume),
        input.volume_specs(volume) matches Some(specs) ==> {
            &&& Some(specs.volume_type) == text(volume.volume_type)
            &&& Some(specs.size) == volume.size
            &&& volume.iops is Some ==> Some(specs.iops) == volume.iops
            &&& volume.iops is None ==> specs.iops == 0
            &&& quotes(
                input.catalog,
                "TinaOS-FCU"@,
                "BSU:VolumeUsage:"@ + specs.volume_type,
                "CreateVolume"@,
                Some(specs.price_gb_per_month),
            )
            &&& specs.volume_type == "io1"@ ==> quotes(
                input.catalog,
                "TinaOS-FCU"@,
                "BSU:VolumeIOPS:io1"@,
                "CreateVolume"@,
                Some(specs.price_iops_per_month),
            )
            &&& specs.volume_type != "io1"@ ==> specs.price_iops_per_month.bits == 0
        },
{
    law_volume_costs_what_its_type_costs(input, None, Seq::empty(), volume);
}

/// The row of the VM to which a public IP is attached, which has an address.
pub open spec fn attached_at(input: InputView, public_ip: model::PublicIp, at: int) -> bool {
    &&& public_ip.vm_id is Some
    &&& 0 <= at < input.vms.len()
    &&& input.vms[at].0 == public_ip.vm_id->0@
    &&& input.vms[at].1.public_ip is Some
}

/// The public IP is the very address of the VM in the row `at`.
pub open spec fn is_the_address(input: InputView, public_ip: model::PublicIp, at: int) -> bool {
    input.vms[at].1.public_ip->0@ == public_ip.public_ip->0@
}

/// A public IP can be listed: its address is known and, if it is attached to no VM,
/// the price of an idle address is quoted; if it is attached, its VM and the address
/// of that VM are known, and this is its own, or the price of one more is quoted.
pub open spec fn public_ip_can_be_listed(input: InputView, public_ip: model::PublicIp) -> bool {
    &&& public_ip.public_ip is Some
    &&& public_ip.vm_id is None ==> quoted(
        input.catalog,
        "TinaOS-FCU"@,
        "ElasticIP:IdleAddress"@,
        "AssociateAddressVPC"@,
    )
    &&& public_ip.vm_id is Some ==> exists|at: int| #[trigger]
        attached_at(input, public_ip, at) && (is_the_address(input, public_ip, at) || quoted(
            input.catalog,
            "TinaOS-FCU"@,
            "ElasticIP:AdditionalAddress"@,
            "AssociateAddressVPC"@,
        ))
}

/// What is listed is this public IP, under the identifier `id`, at the one price that
/// what it is attached to calls for.
pub open spec fn is_that_public_ip(
    listed: PublicIpView,
    input: InputView,
    read_date: Option<Seq<char>>,
    id: Seq<char>,
    public_ip: model::PublicIp,
) -> bool {
    &&& listed.osc_cost_version == Some("0.1.0"@)
    &&& listed.account_id == account_text(input)
    &&& listed.read_date_rfc3339 == read_date
    &&& listed.region == text(input.region)
    &&& listed.resource_id == Some(id)
    &&& listed.price_per_hour is None
    &&& listed.price_per_month is None
    &&& listed.price_non_attached is Some <==> public_ip.vm_id is None
    &&& listed.price_non_attached is Some ==> quotes(
        input.catalog,
        "TinaOS-FCU"@,
        "ElasticIP:IdleAddress"@,
        "AssociateAddressVPC"@,
        listed.price_non_attached,
    )
    &&& public_ip.vm_id is None ==> listed.price_first_ip is None && listed.price_next_ips is None
    &&& forall|at: int| #[trigger]
        attached_at(input, public_ip, at) ==> {
            &&& is_the_address(input, public_ip, at) <==> listed.price_first_ip is Some
            &&& is_the_address(input, public_ip, at) <==> listed.price_next_ips is None
        }
    &&& listed.price_first_ip matches Some(price) ==> price.bits == 0
    &&& listed.price_next_ips is Some ==> quotes(
        input.catalog,
        "TinaOS-FCU"@,
        "ElasticIP:AdditionalAddress"@,
        "AssociateAddressVPC"@,
        listed.price_next_ips,
    )
}

proof fn lemma_attached(input: InputView, public_ip: model::PublicIp, at: int)
    requires
        told_apart(input.vms),
        public_ip.vm_id is Some,
        0 <= at < input.vms.len(),
        input.vms[at].0 == public_ip.vm_id->0@,
    ensures
        lookup(input.vms, public_ip.vm_id->0@) == Some(input.vms[at].1),
{
    assert(distinct_keys(input.vms)) by {
        assert forall|i: int, j: int|
            0 <= i < input.vms.len() && 0 <= j < input.vms.len() && #[trigger] input.vms[i].0
                == #[trigger] input.vms[j].0 implies i == j by {}
    }
    lemma_row(input.vms, at);
}

proof fn lemma_public_ip_prices(input: InputView)
    requires
        told_apart(input.catalog),
    ensures
        ({
            let idle = input.price(
                "TinaOS-FCU"@,
                "ElasticIP:IdleAddress"@,
                "AssociateAddressVPC"@,
            );
            let further = input.price(
                "TinaOS-FCU"@,
                "ElasticIP:AdditionalAddress"@,
                "AssociateAddressVPC"@,
            );
            &&& quotes(
                input.catalog,
                "TinaOS-FCU"@,
                "ElasticIP:IdleAddress"@,
                "AssociateAddressVPC"@,
                idle,
            )
            &&& quotes(
                input.catalog,
                "TinaOS-FCU"@,
                "ElasticIP:AdditionalAddress"@,
                "AssociateAddressVPC"@,
                further,
            )
            &&& idle is Some <==> quoted(
                input.catalog,
                "TinaOS-FCU"@,
                "ElasticIP:IdleAddress"@,
                "AssociateAddressVPC"@,
            )
            &&& further is Some <==> quoted(
                input.catalog,
                "TinaOS-FCU"@,
                "ElasticIP:AdditionalAddress"@,
                "AssociateAddressVPC"@,
            )
        }),
{
    law_one_price_is_quoted(
        input,
        "TinaOS-FCU"@,
        "ElasticIP:IdleAddress"@,
        "AssociateAddressVPC"@,
        None,
        None,
    );
    law_one_price_is_quoted(
        input,
        "TinaOS-FCU"@,
        "ElasticIP:AdditionalAddress"@,
        "AssociateAddressVPC"@,
        None,
        None,
    );
}

/// A public IP is listed if and only if it is known what it costs, and then at that
/// price: that of an idle address if it is attached to no VM; nothing if it is the
/// address of its VM, and only then; the price of one more address otherwise.
pub proof fn law_public_ip_costs_what_its_attachment_costs(
    input: InputView,
    read_date: Option<Seq<char>>,
    id: Seq<char>,
    public_ip: model::PublicIp,
)
    requires
        told_apart(input.catalog),
        told_apart(input.vms),
    ensures
        input.public_ip_resource(read_date, id, public_ip) is Some <==> public_ip_can_be_listed(
            input,
            public_ip,
        ),
        input.public_ip_resource(read_date, id, public_ip) matches Some(listed)
            ==> is_that_public_ip(listed, input, read_date, id, public_ip),
{
    lemma_public_ip_prices(input);
    if let Some(vm_id) = public_ip.vm_id {
        assert forall|at: int| #[trigger] attached_at(input, public_ip, at) implies lookup(
            input.vms,
            vm_id@,
        ) == Some(input.vms[at].1) by {
            lemma_attached(input, public_ip, at);
        }
        if has_key(input.vms, vm_id@) {
            let at = position(input.vms, vm_id@);
            assert(input.vms[at].0 == vm_id@);
            lemma_attached(input, public_ip, at);
            if input.vms[at].1.public_ip is Some {
                assert(attached_at(input, public_ip, at));
            }
        }
    }
}

/// A public IP that is attached to a VM in the row `at` is free if and only if it is
/// the very address of that VM. With any other address it is charged, at the price of
/// one more address that is quoted.
pub proof fn law_only_the_first_address_is_free(
    input: InputView,
    public_ip: model::PublicIp,
    at: int,
    idle: Option<Price>,
    further: Option<Price>,
)
    requires
        told_apart(input.catalog),
        told_apart(input.vms),
        public_ip.public_ip is Some,
        quotes(
            input.catalog,
            "TinaOS-FCU"@,
            "ElasticIP:IdleAddress"@,
            "AssociateAddressVPC"@,
            idle,
        ),
        quotes(
            input.catalog,
            "TinaOS-FCU"@,
            "ElasticIP:AdditionalAddress"@,
            "AssociateAddressVPC"@,
            further,
        ),
    ensures
        attached_at(input, public_ip, at) ==> (input.public_ip_charge(public_ip) == Some(
            PublicIpCharge::FirstIp,
        ) <==> is_the_address(input, public_ip, at)),
        attached_at(input, public_ip, at) && !is_the_address(input, public_ip, at)
            ==> match further {
            Some(price) => input.public_ip_charge(public_ip) == Some(
                PublicIpCharge::NextIp(price),
            ),
            None => input.public_ip_charge(public_ip) is None,
        },
        public_ip.vm_id is None ==> match idle {
            Some(price) => input.public_ip_charge(public_ip) == Some(
                PublicIpCharge::NonAttached(price),
            ),
            None => input.public_ip_charge(public_ip) is None,
        },
{
    law_price_is_the_quoted_one(
        input,
        "TinaOS-FCU"@,
        "ElasticIP:IdleAddress"@,
        "AssociateAddressVPC"@,
        idle,
    );
    law_price_is_the_quoted_one(
        input,
        "TinaOS-FCU"@,
        "ElasticIP:AdditionalAddress"@,
        "AssociateAddressVPC"@,
        further,
    );
    if attached_at(input, public_ip, at) {
        lemma_attached(input, public_ip, at);
    }
}

/// A public IP whose address is not known, or whose VM or the address of its VM is
/// not, is charged by nothing.
pub proof fn law_unknown_addresses_are_not_charged(input: InputView, public_ip: model::PublicIp)
    requires
        told_apart(input.vms),
        public_ip.public_ip is None || (public_ip.vm_id is Some && forall|at: int|
            !#[trigger] attached_at(input, public_ip, at)),
    ensures
        input.public_ip_charge(public_ip) is None,
{
    if public_ip.public_ip is Some {
        let vm_id = public_ip.vm_id->0;
        if has_key(input.vms, vm_id@) {
            let at = position(input.vms, vm_id@);
            assert(input.vms[at].0 == vm_id@);
            assert(!attached_at(input, public_ip, at));
        }
    }
}

/// What is listed is this NAT service, under its own identifier, at the price that is
/// quoted for NAT services, if any is.
pub open spec fn is_that_nat_service(
    listed: NatServicesView,
    input: InputView,
    read_date: Option<Seq<char>>,
    nat_service: model::NatService,
) -> bool {
    &&& listed.osc_cost_version == Some("0.1.0"@)
    &&& listed.account_id == account_text(input)
    &&& listed.read_date_rfc3339 == read_date
    &&& listed.region == text(input.region)
    &&& listed.resource_id == text(nat_service.nat_service_id)
    &&& listed.price_per_hour is None
    &&& listed.price_per_month is None
    &&& quotes(
        input.catalog,
        "TinaOS-FCU"@,
        "NatGatewayUsage"@,
        "CreateNatGateway"@,
        listed.price_product_per_nat_service_per_hour,
    )
}

/// A NAT service is listed if and only if it has an identifier, and then at the price
/// that is quoted for NAT services, or at none where none is.
pub proof fn law_nat_service_costs_the_quoted_price(
    input: InputView,
    read_date: Option<Seq<char>>,
    nat_service: model::NatService,
)
    requires
        told_apart(input.catalog),
    ensures
        input.nat_service_resource(read_date, nat_service) is Some
            <==> nat_service.nat_service_id is Some,
        input.nat_service_resource(read_date, nat_service) matches Some(listed)
            ==> is_that_nat_service(listed, input, read_date, nat_service),
{
    law_one_price_is_quoted(
        input,
        "TinaOS-FCU"@,
        "NatGatewayUsage"@,
        "CreateNatGateway"@,
        None,
        None,
    );
}

/// What is listed is this snapshot, under the identifier `id`, at the price that is
/// quoted for snapshots.
pub open spec fn is_that_snapshot(
    listed: SnapshotView,
    input: InputView,
    read_date: Option<Seq<char>>,
    id: Seq<char>,
    snapshot: model::Snapshot,
) -> bool {
    &&& listed.osc_cost_version == Some("0.1.0"@)
    &&& listed.account_id == account_text(input)
    &&& listed.read_date_rfc3339 == read_date
    &&& listed.region == text(input.region)
    &&& listed.resource_id == Some(id)
    &&& listed.price_per_hour is None
    &&& listed.price_per_month is None
    &&& listed.volume_size_gib == snapshot.volume_size
    &&& quotes(
        input.catalog,
        "TinaOS-FCU"@,
        "Snapshot:Usage"@,
        "Snapshot"@,
        Some(listed.price_gb_per_month),
    )
}

/// The price of snapshots is the one that is quoted for them, and a snapshot that is
/// listed at it is listed as itself.
pub proof fn law_snapshot_costs_the_quoted_price(
    input: InputView,
    read_date: Option<Seq<char>>,
    id: Seq<char>,
    snapshot: model::Snapshot,
    price: Option<Price>,
)
    requires
        told_apart(input.catalog),
        quotes(input.catalog, "TinaOS-FCU"@, "Snapshot:Usage"@, "Snapshot"@, price),
    ensures
        input.snapshot_price() == price,
        price is Some ==> is_that_snapshot(
            input.snapshot_resource(read_date, price->0, id, snapshot),
            input,
            read_date,
            id,
            snapshot,
        ),
{
    law_price_is_the_quoted_one(
        input,
        "TinaOS-FCU"@,
        "Snapshot:Usage"@,
        "Snapshot"@,
        price,
    );
}

} // verus!
