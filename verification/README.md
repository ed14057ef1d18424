# attune

Attune publishes APT repositories. This crate holds its logic, verified with Verus:

- `apt`: packages, Packages indexes (rendering, adding and removing packages, with
  size and checksums kept in step with the contents) and Release files.
- `api`: error responses, status codes, bearer-token parsing, tenant checks and the
  escaping of URL path segments.
- `cli` and `client`: request paths, retry decisions, reply handling, messages and
  tables of the `attune` command-line client, and the choice of a signing key.
- `controlplane`: index and Release generation of the control plane server, object
  keys of publication, token hashing.
- `migrations`: reading Prisma migration directory names.
- `digest`, `text`: checksums and text building blocks.

`app/` is the command-line client around the library: argument parsing, HTTP,
signing with `gpgme`, printing.
