# thlauh

Share a folder with the devices on the local network: a small web portal lists
the folder, lets browsers download and upload files, and can be protected by a
password. The share is announced over mDNS as `<name>.local`.

- `src/` is the library, verified with Verus: the portal pages (`portal`,
  `templates`), the listing order (`listing`), password hashes, cookies and the
  login form (`auth`), the decisions taken for each request (`requests`), the
  WebSocket messages (`messages`), content types (`mime`), the mDNS host name
  and the requests the publisher makes of its responder (`mdns`), interface
  addresses (`network`) and what starting a share reports (`server`).
  Calls into `mdns-sd`, `sha2`, `hex`, `percent-encoding`, `form_urlencoded`,
  `serde_json` and std's path functions stand behind trusted wrappers whose
  contracts are taken on trust: that a responder starts, or that the network
  hears an announcement, is not proved.
- `app/` is the desktop side built on it: the axum server, the file watcher,
  interface discovery and the Tauri window.
- `tests/` runs the library on concrete inputs.
