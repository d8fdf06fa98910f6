# Azure SQL TCO, verified core

The library behind an operational calculator that compares estimated annual
AWS EC2, AWS RDS or on-premises SQL Server costs with Azure SQL Managed
Instance. Every function in `src/` is verified with Verus against the contract
it states; the outside crates it calls (exact decimals, date-times, UUIDs,
SHA-256, URL parsing) are reached through small trusted wrappers whose
contracts say what those crates document.

## Layout

- `src/` — the verified library:
  - `decimal`, `text`, `digest`, `instant`, `ids`: exact decimals, text,
    digests, timestamps and identifiers, over the outside crates.
  - `resource`, `project`: workloads, project settings and their validation.
  - `cost`, `sql_payg`, `target_selector`, `workflow`, `engine`: the cost
    formulas, the SQL pay-as-you-go analysis, the managed-instance target
    selection, the explanation steps and the portfolio totals.
  - `calculation`, `warnings`: a project's calculation from its settings,
    resources and the prices read from its snapshots, and the snapshot
    warnings that concern the submitted resources.
  - `config`, `health`: configuration rules and the health answers.
  - `repository`, `project_share`, `privacy_consent`, `calculator_launch`:
    the owner-scoped stores, with in-memory implementations and the laws
    they keep.
  - `pricing`, `pricing_cache`, `cosmos`, `store_protocol`: price snapshots,
    refresh leases and quotas, and the conditional-write protocols that the
    document-store adapters follow.
- `tests/` — tests of the library on concrete values.
- `app/` — the service around the library: configuration from the
  environment, the HTTP endpoints, JSON forms of the stored documents, and the
  Azure Cosmos DB adapters that run the store protocols.

## Scope

The calculation covers EC2, RDS, on-premises and SQL pay-as-you-go projects.
The EC2 VM path (selecting an Azure VM size and pricing it from VM and
managed-disk catalogs) is not part of this library: an EC2 VM workload is
refused with `CalculationError::VmTargetSelectionUnavailable`, and its cost
formulas in `cost` stand ready for the selection that the path needs.

A snapshot warning is taken to be about an instance type when it names one
after the words " rate for " ("EC2 Standard SQL rate for m5.large uses ...");
such a warning is kept only where a submitted resource has that instance type.
