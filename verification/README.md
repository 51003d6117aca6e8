# paygig

Verified core of the PayGig on-chain programs.

- `src/achievement`: badge names, slugs and metadata URIs; the
  configuration account and its `init_collection` and `set_base_uri`
  instructions.
- `src/escrow`: the `cancel_before_funding` and `settle_reputation`
  instructions, which decide what happens to a gig's vault and what to ask of
  the gig and reputation programs.
- `src/framework.rs`: accounts as an instruction sees them, the constraint
  errors of the account framework, and program-address derivation.
- `src/*/laws.rs`: properties that hold across inputs and instructions.
- `app/`: instruction glue of the achievement program for `init_collection`
  and `set_base_uri` only: it hands the accounts to the library and writes
  back what it decides. It does not create the collection NFT (no Metaplex
  client is linked), and there is no glue for the escrow program: the gig
  and reputation programs it calls are not available here, so the effects
  that the escrow handlers return are not carried out by this crate.

Each instruction is stated as a spec function (`*_outcome`) that gives the
first failing account constraint or check, in the order the framework makes
them, or the new state and the effects to carry out; the executable handler
is proved to follow it exactly, and to change nothing when it fails.
