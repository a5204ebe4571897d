# auction_ledger

A verified ledger for auctions, together with a time oracle.

The auction service keeps participants, their items, and the auctions in which those
items are sold. A bid reserves funds of the bidder and releases those of whoever was
outbid; closing an auction moves the winning bid to the auctioner. The time service takes
down the clocks of a group of validators and consolidates them into one time, which only
moves forward and which less than a third of the group cannot move out of the range of
the others.

- `src/` is the library. `auction/ledger.rs` says what each transaction makes of the state
  of the auction service, and `time/transactions.rs` what a report makes of the state of
  the time service; the `laws` modules state what follows for all of them together.
- `tests/` runs the library.
- `app/` is a node that stores the tables, receives transactions and answers requests.
