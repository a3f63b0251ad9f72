# malina

MALINA deploys reproducible malware-analysis laboratories described in TOML
files: a laboratory (network policy, provider) and its machines (hardware,
operating system image, users, packages, first-boot scripts).

The library under `src/` is verified with Verus. It holds:

- `document`, `laboratories::decode`, `errors::reading`: reading a
  configuration from its TOML document, with the exact error a document gives;
- `laboratories`, `validations`: the checks of a configuration against the
  host and the files it names;
- `state`, `deployment`: the machine lifecycle and the driver that decides each
  step of a deployment and keeps its record;
- `package_managers`, `seeders`, `template`: the commands, the rendered seed
  documents and the first-boot image handed to a guest;
- `providers`: the decisions of the libvirt back end (networks, bridges,
  subnets, device flags, domain states) and its rendered definitions;
- `text`, `sequences`, `paths`, `span`: shared helpers.

`app/` is the command-line program around it: argument parsing, file and
libvirt I/O, reading the template texts, and the diagnostics. The templates
are read from the directory named by `MALINA_TEMPLATE_DIR` (default:
`templates`) and rendered by the library.
