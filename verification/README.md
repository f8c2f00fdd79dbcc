# sync_folder

A command-line tool that synchronises one local folder with a media folder
(audio, video or image) in the application sandbox of a Yandex.Disk account.

- `src/` is the verified library (Verus):
  - `sync.rs`: the local folder as a name-to-path map, and the delta between a
    cloud listing and the folder (what to download, what to upload), with its laws;
  - `yandex.rs`: reading a folder listing, the decisions taken on the service's
    answers, request URLs, paths and the authorisation header;
  - `json.rs`: the JSON model the listing logic reads;
  - `storage.rs`: media types and the configuration with its validation;
  - `cli.rs`: drives, modes, dialog answers and the checks made on them.
- `app/` is the program around it: prompts, files, HTTP and the concurrent transfers.
- `tests/` exercises the library on concrete values.
