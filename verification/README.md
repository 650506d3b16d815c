# ticket_scanner

A meal-ticket scanner for a touch screen: tickets are scanned (a USB QR
scanner types the digits and Enter) or keyed in on an on-screen pad, stored in
SQLite with a timestamp, duplicates are refused unless a five-minute override
is open, and the screen shows the total, the last ten scans and a plates-per-hour
rate over the last ten minutes.

Layout:

- `src/` — the verified library (Verus):
  - `text.rs` — decimal rendering and padding;
  - `timestamp.rs` — the stored timestamp form `YYYY-MM-DD HH:MM:SS`, the
    12-hour display form, reading stored timestamps back, and the proof that
    stored timestamps sort as text in time order;
  - `entry.rs` — trimming, picking out digits, reading an `i64`;
  - `records.rs` — scan records, the duplicate decision, the schema check;
  - `scanner.rs` — the scanner's state machine: submission, banners and their
    lifetimes, the duplicate override, statistics refresh, on-screen texts;
  - `logline.rs` — lines of the event log.
- `app/` — the program around it: the egui/eframe window, the SQLite store
  (rusqlite), the log file, and the local clock.
- `tests/` — tests of the library.

Ticket numbers start at 1000; lower numbers are refused with a warning banner.
The keyboard Backspace resets the entry; the on-screen backspace removes one
character.
