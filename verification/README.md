# cloud_backup

The logic of a wallet app's cloud backup, with its behaviour stated in contracts and proved by Verus.
A master key, wrapped by a passkey, encrypts every wallet; the encrypted backups live in the user's
cloud storage, and come back to a new device with the same passkey.

## How it works

The library decides, and its caller acts. An *operation* (enable, restore, sync, verify, ...) is a
value that waits for one reply at a time. Each step says what follows a reply: some effects, and then
the next request or the outcome. Operations run one another, and `machine::Machine` keeps the stack of
those that wait; it also reads the clock and draws random values for them.

- `protocol`: requests, replies, effects, operations and outcomes.
- `flows`: the operations, one module for each part of the backup. For each there is a relation
  `began` for its first step and a relation `next` for what follows a reply; `start` and `step` are
  proved to keep to them.
- `frame`, `machine`: an operation of any kind, and the machine that runs them.
- `manager`, `state`: what the screens show, and what they start.
- `record`, `upload_queue`, `wallet`: what the device stores of the backup, the uploads that are still
  being watched, and the wallets.
- `hexcode`, `mnemonic`, `clock`, `entropy`: the calls into `hex`, `bip39`, `jiff` and `rand`.
- `laws`: what holds of every operation. Laws about one module stand in that module; their names begin
  with `law_`.

`app` holds the rest of the manager: the traits of the services it needs (keychain, key store, cloud
storage, passkeys, databases, import), the redb table of the upload queue, its threads, and the loop
that carries out requests.
