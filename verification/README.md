# protoncode

A desktop tray application that watches a Proton Mail session and shows one-time
passwords as masked notifications. What it decides is a library verified with
[Verus](https://github.com/verus-lang/verus); windows, pages, files and the
system are ordinary Rust around it.

## Layout

`src/` is the verified library.

| module | what it is about |
| --- | --- |
| `text` | searching, replacing, trimming and writing numbers, on characters |
| `timestamp` | points in time with an offset from UTC |
| `models` | the mail session, mails, codes and notifications |
| `otp` | finding a code in a mail |
| `paths`, `config` | where files lie, and the configuration |
| `app` | the state: configuration, session, notification, messages seen, log |
| `autostart`, `secrets` | starting at sign-in, and the marker of a session |
| `events`, `payloads` | what the pages say, and what they are given to show |
| `desktop_app` | what each event comes to: a new state and steps to carry out |
| `pages`, `icon` | the pages, the script that watches the mail page, the icon |
| `windows_app`, `windows_pages` | the rules and pages of a smaller application for Windows |

Contracts speak of views: each type has a ghost counterpart of plain values, and
each function says what it returns or changes over those. Public proof functions
state what holds across functions, such as that a message is shown once, that a
found code has four to eight digits and is no date, or that the settings window
never shows a code.

`app/` is the program. It carries out the steps that the library answers with,
keeps the files, and talks to the credential store, the registry and the
windows. It takes the icon and the fonts from a directory `assets` beside the
executable, and goes without those that are missing.

`tests/` runs the library on given values.

## What is trusted

Calls into other crates stand in small functions whose contracts are believed:
regular expressions (`otp`), the clock and dates (`timestamp`), JSON lists of
texts (`app`), Base64 (`pages`), PNG images (`icon`), the configuration directory
of the user (`config`), and a few functions of the standard library (`text`,
`paths`, `windows_app`). The comment above each says what is claimed.
