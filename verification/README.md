# thin_pool_docker_volume

A Docker volume plugin that backs each Docker volume with a thin-provisioned
LVM logical volume (LV), with its logic verified by Verus.

Each `docker volume create --driver lvm_thin_pool ...` allocates an LV inside an
existing thin pool and formats it with the requested filesystem; a mount exposes
it to Docker, and `docker volume rm` removes the LV.

## Layout

- `src/` is the library. It holds every decision of the plugin as state machines
  over plain values: a step takes the volume, the phase of the operation and the
  reply to the last effect, and gives the volume afterwards and either the next
  effect or the end.
  - `volume_state`: provisioning, mounting, unmounting of one volume
  - `plugin`, `volumes`: the requests that Docker makes, on the shared table
  - `startup`: the search for the thin pool, adopting or removing its LVs
  - `opts`, `octal`, `mountpoint`, `errno`, `error`, `config`, `effect`: what
    these are made of
  - `laws`, `startup_laws`, `table_laws`: what holds of whole runs, whatever the
    replies, and of the table over several requests
- `app/` is the program around it: D-Bus, the filesystem, the socket.
- `tests/` runs the library.

## Volume options

| Option           | Type            | Description                                                     |
| ---------------- | --------------- | --------------------------------------------------------------- |
| `size`           | bytes           | Size of the LV.                                                 |
| `mount_options`  | `MS_*` bitmask  | Linux mount flags.                                              |
| `fs_type`        | string          | Filesystem to format with (`xfs`, `ext4`, ...).                 |
| `format_options` | comma-separated | Extra arguments for `mkfs.<fs_type>`. Empty string means none.  |
| `root_mode`      | octal           | Permissions of the volume root, set on mount.                   |

A root mode cannot be combined with a read-only mount.
