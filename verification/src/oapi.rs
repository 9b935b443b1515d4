//! The inventory of an account: what is read from the API, and the prices by
//! which it is valued.
use aws_config::SdkConfig;
use outscale_api::apis::configuration::Configuration;
use rand::rngs::ThreadRng;
use vstd::prelude::*;

use crate::clock::Timestamp;
use crate::model::{
    contents, copy_text, entry_id, forge_entry_id, Account, CatalogEntry, Filter, FlexibleGpu,
    Image, NatService, OosBucket, Price, PublicIp, Snapshot, Vm, VmType, Volume,
};
use crate::table::{lookup, Rows, Table};
use crate::throttle::thread_rng;

pub mod fetch;
pub mod fill;
pub mod notices;
pub mod pricing;

verus! {

/// The inventory of an account.
pub struct Input {
    pub config: Configuration,
    pub aws_config: SdkConfig,
    pub rng: ThreadRng,
    pub vms: Table<Vm>,
    pub vms_images: Table<Image>,
    pub catalog: Table<CatalogEntry>,
    pub need_vm_types_fetch: bool,
    pub vm_types: Table<VmType>,
    pub account: Option<Account>,
    pub region: Option<String>,
    pub nat_services: Table<NatService>,
    pub volumes: Table<Volume>,
    pub snapshots: Table<Snapshot>,
    pub fetch_date: Option<Timestamp>,
    pub public_ips: Table<PublicIp>,
    pub filters: Option<Filter>,
    pub flexible_gpus: Table<FlexibleGpu>,
    pub load_balancers: Vec<String>,
    pub vpns: Vec<String>,
    pub buckets: Table<OosBucket>,
}

/// The contents of an [`Input`]: all of it but the random number generator.
#[verifier::ext_equal]
pub struct InputView {
    pub config: Configuration,
    pub aws_config: SdkConfig,
    pub vms: Rows<Vm>,
    pub vms_images: Rows<Image>,
    pub catalog: Rows<CatalogEntry>,
    pub need_vm_types_fetch: bool,
    pub vm_types: Rows<VmType>,
    pub account: Option<Account>,
    pub region: Option<String>,
    pub nat_services: Rows<NatService>,
    pub volumes: Rows<Volume>,
    pub snapshots: Rows<Snapshot>,
    pub fetch_date: Option<Timestamp>,
    pub public_ips: Rows<PublicIp>,
    pub filters: Option<Filter>,
    pub flexible_gpus: Rows<FlexibleGpu>,
    pub load_balancers: Seq<String>,
    pub vpns: Seq<String>,
    pub buckets: Rows<OosBucket>,
}

impl View for Input {
    type V = InputView;

    open spec fn view(&self) -> InputView {
        InputView {
            config: self.config,
            aws_config: self.aws_config,
            vms: self.vms@,
            vms_images: self.vms_images@,
            catalog: self.catalog@,
            need_vm_types_fetch: self.need_vm_types_fetch,
            vm_types: self.vm_types@,
            account: self.account,
            region: self.region,
            nat_services: self.nat_services@,
            volumes: self.volumes@,
            snapshots: self.snapshots@,
            fetch_date: self.fetch_date,
            public_ips: self.public_ips@,
            filters: self.filters,
            flexible_gpus: self.flexible_gpus@,
            load_balancers: self.load_balancers@,
            vpns: self.vpns@,
            buckets: self.buckets@,
        }
    }
}

impl InputView {
    /// The inventory before anything was read.
    pub open spec fn empty(config: Configuration, aws_config: SdkConfig) -> InputView {
        InputView {
            config,
            aws_config,
            vms: Rows::empty(),
            vms_images: Rows::empty(),
            catalog: Rows::empty(),
            need_vm_types_fetch: false,
            vm_types: Rows::empty(),
            account: None,
            region: None,
            nat_services: Rows::empty(),
            volumes: Rows::empty(),
            snapshots: Rows::empty(),
            fetch_date: None,
            public_ips: Rows::empty(),
            filters: None,
            flexible_gpus: Rows::empty(),
            load_balancers: Seq::empty(),
            vpns: Seq::empty(),
            buckets: Rows::empty(),
        }
    }

    /// The identifier of the account, where it is known.
    pub open spec fn account_id(self) -> Option<Seq<char>> {
        match self.account {
            Some(account) => contents(account.account_id),
            None => None,
        }
    }

    /// The price of an operation on a type of resource of a service: that of the
    /// catalog entry with this identifier, where there is one and it has one.
    pub open spec fn price(
        self,
        service: Seq<char>,
        type_: Seq<char>,
        operation: Seq<char>,
    ) -> Option<Price> {
        match lookup(self.catalog, entry_id(service, type_, operation)) {
            Some(entry) => entry.unit_price,
            None => None,
        }
    }
}

impl Input {
    /// The empty inventory of the account that `config` gives access to, or why
    /// there is no access.
    pub fn new<E>(config: Result<(Configuration, SdkConfig), E>) -> (input: Result<Input, E>)
        ensures
            match config {
                Ok((config, aws_config)) => input matches Ok(input) && input@ == InputView::empty(
                    config,
                    aws_config,
                ),
                Err(error) => input == Err::<Input, E>(error),
            },
    {
        let (config, aws_config) = match config {
            Ok((config, aws_config)) => (config, aws_config),
            Err(error) => return Err(error),
        };
        Ok(
            Input {
                config,
                aws_config,
                rng: thread_rng(),
                vms: Table::new(),
                vms_images: Table::new(),
                catalog: Table::new(),
                need_vm_types_fetch: false,
                vm_types: Table::new(),
                account: None,
                region: None,
                nat_services: Table::new(),
                volumes: Table::new(),
                snapshots: Table::new(),
                fetch_date: None,
                public_ips: Table::new(),
                filters: None,
                flexible_gpus: Table::new(),
                load_balancers: Vec::new(),
                vpns: Vec::new(),
                buckets: Table::new(),
            },
        )
    }

    /// The identifier of the account, where it is known.
    pub fn account_id(&self) -> (account_id: Option<String>)
        ensures
            contents(account_id) == self@.account_id(),
    {
        match &self.account {
            Some(account) => copy_text(&account.account_id),
            None => None,
        }
    }

    /// The price of an operation on a type of resource of a service.
    pub fn catalog_entry(&self, service: &str, type_: &str, operation: &str) -> (price: Option<
        Price,
    >)
        ensures
            price == self@.price(service@, type_@, operation@),
    {
        let id = forge_entry_id(service, type_, operation);
        match self.catalog.get(id.as_str()) {
            Some(entry) => entry.unit_price,
            None => None,
        }
    }
}

} // verus!
