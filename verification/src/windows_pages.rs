//! The pages of the smaller application for Windows, and the script that watches
//! its mail page.

use crate::text::push_decimal;
#[allow(unused_imports)]
use crate::text::decimal;
use vstd::prelude::*;

verus! {

/// The script that watches the mail page, up to the seconds between two looks.
pub const PAGE_MONITOR_HEAD: &'static str = r#"
(() => {
  const sendSnapshot = () => {
    const payload = {
      kind: "snapshot",
      url: window.location.href,
      title: document.title || "Proton Mail",
      text: (document.body?.innerText || "").slice(0, 12000)
    };
    window.ipc.postMessage(JSON.stringify(payload));
  };

  const schedule = Math.max("#;

/// The script that watches the mail page, after the seconds between two looks.
/// It looks no more often than every five seconds.
pub const PAGE_MONITOR_TAIL: &'static str = r#", 5) * 1000;
  window.addEventListener("load", () => setTimeout(sendSnapshot, 1500));
  document.addEventListener("visibilitychange", sendSnapshot);
  new MutationObserver(() => {
    window.clearTimeout(window.__protoncodeMutationTimer);
    window.__protoncodeMutationTimer = window.setTimeout(sendSnapshot, 800);
  }).observe(document.documentElement, { childList: true, subtree: true, characterData: true });
  window.setInterval(sendSnapshot, schedule);
  sendSnapshot();
})();
"#;

/// The page of the overlay.
pub const OVERLAY_PAGE: &'static str = r#"
<!doctype html>
<html>
  <head>
    <meta charset="utf-8" />
    <style>
      :root {
        color-scheme: dark;
        --bg: #111827;
        --panel: rgba(17, 24, 39, 0.96);
        --panel-border: rgba(255, 255, 255, 0.08);
        --text: #f8fafc;
        --muted: #94a3b8;
        --accent: #6d4aff;
        --accent-soft: rgba(109, 74, 255, 0.16);
      }
      html, body {
        margin: 0;
        width: 100%;
        height: 100%;
        background: transparent;
        overflow: hidden;
        font-family: "Segoe UI", "Inter", sans-serif;
      }
      body {
        display: flex;
        align-items: center;
        justify-content: center;
        padding: 12px;
      }
      .card {
        width: 100%;
        height: 100%;
        box-sizing: border-box;
        padding: 18px;
        border-radius: 22px;
        border: 1px solid var(--panel-border);
        background:
          radial-gradient(circle at top left, rgba(0, 174, 255, 0.18), transparent 35%),
          radial-gradient(circle at bottom right, rgba(109, 74, 255, 0.24), transparent 42%),
          var(--panel);
        color: var(--text);
        box-shadow: 0 22px 60px rgba(15, 23, 42, 0.45);
        display: none;
      }
      .eyebrow {
        font-size: 12px;
        letter-spacing: 0.12em;
        text-transform: uppercase;
        color: var(--muted);
      }
      .source {
        margin-top: 10px;
        font-size: 16px;
        font-weight: 600;
      }
      .code-row {
        margin-top: 14px;
        display: flex;
        align-items: center;
        gap: 8px;
      }
      .code {
        flex: 1;
        padding: 14px 16px;
        border-radius: 16px;
        background: var(--accent-soft);
        font-size: 30px;
        font-weight: 700;
        letter-spacing: 0.18em;
      }
      button {
        border: 0;
        border-radius: 14px;
        padding: 11px 14px;
        background: rgba(255, 255, 255, 0.09);
        color: var(--text);
        font-size: 14px;
        cursor: pointer;
      }
      .meta {
        margin-top: 14px;
        display: flex;
        justify-content: space-between;
        color: var(--muted);
        font-size: 12px;
      }
      .actions {
        margin-top: 14px;
        display: flex;
        justify-content: flex-end;
        gap: 8px;
      }
      .copy {
        background: var(--accent);
      }
    </style>
  </head>
  <body>
    <div class="card" id="card">
      <div class="eyebrow">Proton-style OTP alert</div>
      <div class="source" id="source">Waiting for code</div>
      <div class="code-row">
        <div class="code" id="code">******</div>
        <button id="toggle" type="button" aria-label="Reveal code">Eye</button>
      </div>
      <div class="meta">
        <span>Masked by default</span>
        <span id="received-at">now</span>
      </div>
      <div class="actions">
        <button id="dismiss" type="button">Dismiss</button>
        <button class="copy" id="copy" type="button">Copy</button>
      </div>
    </div>
    <script>
      const state = {
        maskedCode: "******",
        rawCode: "",
        revealed: false,
        hideTimer: null,
      };

      const card = document.getElementById("card");
      const code = document.getElementById("code");
      const source = document.getElementById("source");
      const receivedAt = document.getElementById("received-at");
      const copy = document.getElementById("copy");

      document.getElementById("toggle").addEventListener("click", () => {
        state.revealed = !state.revealed;
        renderCode();
      });

      document.getElementById("dismiss").addEventListener("click", () => {
        window.ipc.postMessage(JSON.stringify({ action: "dismiss" }));
        hide();
      });

      copy.addEventListener("click", () => {
        window.ipc.postMessage(JSON.stringify({ action: "copy" }));
      });

      function renderCode() {
        code.textContent = state.revealed ? state.rawCode : state.maskedCode;
      }

      function hide() {
        card.style.display = "none";
        state.revealed = false;
      }

      window.__PROTON2FA_OVERLAY = {
        show(payload) {
          source.textContent = payload.source_label;
          state.maskedCode = payload.masked_code;
          state.rawCode = payload.raw_code;
          receivedAt.textContent = payload.received_at_label;
          copy.style.display = payload.copy_enabled ? "inline-flex" : "none";
          state.revealed = false;
          renderCode();
          card.style.display = "block";
          window.clearTimeout(state.hideTimer);
          state.hideTimer = window.setTimeout(() => {
            window.ipc.postMessage(JSON.stringify({ action: "dismiss" }));
            hide();
          }, payload.duration_ms);
        }
      };
    </script>
  </body>
</html>
"#;

/// The page of the status window.
pub const STATUS_PAGE: &'static str = r#"
<!doctype html>
<html>
  <head>
    <meta charset="utf-8" />
    <style>
      :root {
        color-scheme: dark;
        --bg: #0f172a;
        --panel: #111827;
        --text: #f8fafc;
        --muted: #94a3b8;
        --accent: #6d4aff;
        --accent-soft: rgba(109, 74, 255, 0.18);
      }
      html, body {
        margin: 0;
        background:
          radial-gradient(circle at top left, rgba(0, 174, 255, 0.14), transparent 30%),
          linear-gradient(160deg, #0b1220 0%, #121a2f 100%);
        color: var(--text);
        font-family: "Segoe UI", "Inter", sans-serif;
      }
      body { padding: 28px; }
      .card {
        max-width: 560px;
        margin: 0 auto;
        padding: 24px;
        border-radius: 22px;
        background: rgba(17, 24, 39, 0.92);
        box-shadow: 0 24px 70px rgba(15, 23, 42, 0.45);
      }
      h1 { margin: 0 0 6px; font-size: 28px; }
      p { color: var(--muted); margin-top: 0; }
      .status {
        margin: 18px 0 24px;
        padding: 16px;
        border-radius: 18px;
        background: var(--accent-soft);
      }
      label {
        display: block;
        margin: 14px 0 6px;
        color: var(--muted);
        font-size: 13px;
      }
      input[type="number"] {
        width: 100%;
        box-sizing: border-box;
        padding: 12px 14px;
        border-radius: 14px;
        border: 1px solid rgba(255,255,255,0.08);
        background: rgba(15, 23, 42, 0.75);
        color: var(--text);
      }
      .toggle-row {
        margin-top: 12px;
        display: flex;
        align-items: center;
        gap: 12px;
      }
      .actions {
        margin-top: 24px;
        display: flex;
        gap: 10px;
      }
      button {
        border: 0;
        border-radius: 14px;
        padding: 12px 16px;
        background: rgba(255,255,255,0.08);
        color: var(--text);
        cursor: pointer;
      }
      .primary { background: var(--accent); }
    </style>
  </head>
  <body>
    <div class="card">
      <h1>protoncode</h1>
      <p>background watcher for masked otp overlays.</p>
      <div class="status">
        <div><strong>Session:</strong> <span id="session-state">Restoring session</span></div>
        <div><strong>Autostart:</strong> <span id="autostart-status">Disabled</span></div>
        <div><strong>Last code:</strong> <span id="last-code">None yet</span></div>
      </div>

      <label for="poll-interval">Polling interval in seconds</label>
      <input id="poll-interval" type="number" min="5" max="30" />

      <label for="notification-duration">Notification duration in seconds</label>
      <input id="notification-duration" type="number" min="5" max="15" />

      <div class="toggle-row">
        <input id="copy-button-enabled" type="checkbox" />
        <label for="copy-button-enabled" style="margin: 0; color: var(--text);">Enable copy button on overlays</label>
      </div>

      <div class="toggle-row">
        <input id="launch-on-startup" type="checkbox" />
        <label for="launch-on-startup" style="margin: 0; color: var(--text);">Launch on Windows sign-in</label>
      </div>

      <div class="actions">
        <button class="primary" id="save">Save settings</button>
        <button id="login">Open Proton login</button>
        <button id="close">Hide</button>
      </div>
    </div>
    <script>
      const elements = {
        sessionState: document.getElementById("session-state"),
        autostartStatus: document.getElementById("autostart-status"),
        lastCode: document.getElementById("last-code"),
        pollInterval: document.getElementById("poll-interval"),
        notificationDuration: document.getElementById("notification-duration"),
        copyEnabled: document.getElementById("copy-button-enabled"),
        launchOnStartup: document.getElementById("launch-on-startup")
      };

      document.getElementById("save").addEventListener("click", () => {
        window.ipc.postMessage(JSON.stringify({
          kind: "save_config",
          poll_interval_seconds: Number(elements.pollInterval.value),
          notification_duration_seconds: Number(elements.notificationDuration.value),
          copy_button_enabled: elements.copyEnabled.checked,
          launch_on_startup: elements.launchOnStartup.checked
        }));
      });

      document.getElementById("login").addEventListener("click", () => {
        window.ipc.postMessage(JSON.stringify({ kind: "login_window" }));
      });

      document.getElementById("close").addEventListener("click", () => {
        window.ipc.postMessage(JSON.stringify({ kind: "hide_status" }));
      });

      window.__PROTON2FA_STATUS = {
        render(payload) {
          elements.sessionState.textContent = payload.session_state;
          elements.autostartStatus.textContent = payload.autostart_status;
          elements.lastCode.textContent = payload.last_masked_code || "None yet";
          elements.pollInterval.value = payload.poll_interval_seconds;
          elements.notificationDuration.value = payload.notification_duration_seconds;
          elements.copyEnabled.checked = payload.copy_button_enabled;
          elements.launchOnStartup.checked = payload.launch_on_startup;
        }
      };
    </script>
  </body>
</html>
"#;

/// The script that watches the mail page, with a look every
/// `poll_interval_seconds`.
pub fn proton_monitor_script(poll_interval_seconds: u64) -> (script: String)
    ensures
        script@ == PAGE_MONITOR_HEAD@ + decimal(poll_interval_seconds as nat)
            + PAGE_MONITOR_TAIL@,
{
    let mut script: String = PAGE_MONITOR_HEAD.to_owned();
    push_decimal(&mut script, poll_interval_seconds);
    script.append(PAGE_MONITOR_TAIL);
    script
}

/// The page of the overlay.
pub fn overlay_html() -> (html: String)
    ensures
        html@ == OVERLAY_PAGE@,
{
    OVERLAY_PAGE.to_owned()
}

/// The page of the status window.
pub fn settings_html() -> (html: String)
    ensures
        html@ == STATUS_PAGE@,
{
    STATUS_PAGE.to_owned()
}

} // verus!
