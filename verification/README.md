# osc_cost

What the resources of an Outscale account cost.

The library keeps the inventory of an account, decides how it is read from the
API, and lists it as priced resources. It is verified with Verus.

- `src/table.rs`: insertion-ordered tables under text keys.
- `src/model.rs`: what the API answers with.
- `src/clock.rs`: points in time and their RFC 3339 text.
- `src/throttle.rs`: what to do about a throttled or failed call.
- `src/config.rs`: where the access to the account comes from.
- `src/resource.rs`: priced resources.
- `src/notice.rs`: what is worth a warning.
- `src/oapi.rs`: the inventory and its price catalog; `oapi/fetch.rs` says how it
  is read, `oapi/pricing.rs` which prices apply, `oapi/fill.rs` how it is listed,
  `oapi/notices.rs` what is worth a warning on the way.
- `src/laws/`: what holds across functions.

`app/` reads the environment and the configuration file, calls the API and
sleeps. VMs, flexible GPUs, load balancers, VPNs and buckets are read and priced
by other parts of the program, which take part through the `Siblings` trait.
