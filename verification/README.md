# ecom_api

The backend of the EasyMall storefront, in two parts.

- `src/` is the verified library (Verus). It holds the decisions that the
  HTTP handlers make: sessions and their cache, the wallet (QRIS top-ups,
  withdrawals, history), the cart, checkout planning and receipts (every
  order is paid with a QRIS from BuatQRIS), order status reports, dashboard
  scopes and totals, reseller API keys, listed products and stores, logins,
  messages, redirects. Each public function states its result in `ensures`.
- `app/` is the server around it: `main`, the axum routes, SQLite, the calls
  to BuatQRIS, KoalaStore, Google and Discord, and the bot's status scripts.
  It hands the library plain values and writes back what the library
  decides.
- `tests/` runs the library on concrete values.

## What the laws cover

The database tables that the laws speak of are modelled in `src/`: the
wallet rows (`WalletView`), the cart (`CartView`), the sessions with their
cache (`SessionStore`), the stores (`StoreRow`, `save_store`, `read_store`)
and the listed products (`ProductTable`). The public proof functions named
`law_*` state what the operations on these models keep and give back:

- each top-up is credited once, a final top-up stays final, a withdrawal
  stays within the balance, the balance equals the history;
- an add-to-cart request merges into the one line of that product and
  variant or inserts exactly one line (`law_server_add_merges_or_inserts`);
- a started session is found again, also after a restart, and not after
  logout (`law_session_survives_restart_and_ends_at_logout`);
- a saved store reads back with the normalized settings, an id and its slug
  (`law_store_read_after_save`);
- an added product reads back as stored, and not for another account
  (`law_product_read_after_add`).

The decision functions that the server applies are tied to the models:
`law_server_topup_check_is_model`, `law_server_withdrawal_is_model` and
`law_server_add_is_model_add`, and the contracts of `plan_add_to_cart`,
`normalize_store_settings`, `store_slug`, `prepare_product` and the
`SessionCache` methods, which are stated over the same spec functions.
`Wallet` and `Cart` are executable versions of their models, verified
against them; the server does not run them.

What is not proved is that the SQL statements in `app/` do what the models'
operations describe (an `INSERT`, `UPDATE` or `DELETE` as the model's
change, a `SELECT` as its lookup); that correspondence rests on reading
`app/`.

## Outside code

The outside crates that the library calls (`url`, `sha2`, `rand`, `time`)
and the few `std` functions without a vstd specification are reached through
small `#[verifier::external_body]` functions whose doc comments say what
their contracts claim. Percent-encoding (what `urlencoding::encode` does) is
written and verified in `src/redirect.rs`.
