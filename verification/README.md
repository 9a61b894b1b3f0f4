# aditup

The verified core of ADITUP, a desktop tool for workplace safety audits:
observations are recorded (Stage 1), risk-assessed (Stage 2), matched
against a bank of known findings or written up (Stage 3), and exported as
a report. A learning loop stages what the bank does not yet know for an
Admin to review, merge and publish.

- `src/` — the library, verified with Verus: the records and their stored
  forms, the audit workflow, term normalisation, the learning loop's
  decisions, analytics, the access gate, settings, the report table and its
  XLSX and CSV renderings, and backup packaging.
- `tests/` — tests of the library on concrete values.
- `app/` — ordinary Rust around it: the SQLite repositories, file I/O for
  backups and reports, and the command functions the user interface calls.
  The database is keyed with `PRAGMA key`, which encrypts it only when
  SQLite is built with SQLCipher; this build uses plain bundled SQLite.
