# precious

A cloud cost estimator for Terraform configurations: it reads the resources
of a root module (and the local modules it calls), prices each supported
resource type with a cost model, and reports a monthly breakdown or the
difference against a saved breakdown.

## Layout

- `src/` is the library, written in Verus: every function carries a contract
  and is proved against it.
  - `decimal`, `money`: exact decimal amounts (computed by `rust_decimal`).
  - `resource`, `state`: resource addresses, Terraform values and the state.
  - `tf::parser`, `tf::loader`, `tf::tree`: the meaning of HCL blocks,
    variable resolution, where each module's resources land, and the load
    of a root module with the local modules it calls (a module reached
    again through its own calls is skipped).
  - `pricing`: price queries, the Azure retail-price request and response
    rules, and the price lists that need no network.
  - `models`: one cost model per resource type, each a step function that
    asks for prices and then returns cost components.
  - `registry`, `engine`: which model prices which resource, and the
    estimate as a sequence of price queries.
  - `cost`, `report`: breakdowns, diffs, sorting, and the table contents.
- `app/` is the command-line program: argument handling, file and network
  I/O, the HCL and JSON/YAML conversions, and table drawing.
- `tests/` exercises the library on concrete values.
