//! The pages that the application shows, and the script that watches the mail
//! page.

use crate::text::{push_decimal, replace_all, same_text};
#[allow(unused_imports)]
use crate::text::{
    contains_text, decimal, decimal_tells_numbers_apart, occurs_at, replaced,
};
use base64::Engine;
use vstd::prelude::*;

verus! {

/// The script that watches the mail page, up to where it sets the time between
/// two looks.
pub const MONITOR_HEAD: &'static str = r#"
(() => {
  const OTP_TERMS = /(code|verification|2fa|two-factor|two factor|one-time|one time|otp|security|passcode|sign in|signin)/i;
  const DIGIT_SEQUENCE = /\b((?:[0-9][\s-]?){3,7}[0-9])\b/;
  const ALL_MAIL_LABEL = "all mail";
  const MORE_LABEL = "more";
  const MAX_ROW_SCAN = 20;
  const CLICK_THROTTLE_MS = 2500;
  const OPEN_MESSAGE_TIMEOUT_MS = 5000;
  const FALLBACK_ATTEMPT_LIMIT = 64;

  const state = {
    pendingOpenedId: null,
    pendingOpenedBaseline: null,
    pendingOpenedRequestedAt: 0,
    fallbackAttempted: [],
    fallbackAttemptedSet: new Set(),
    lastAllMailClickAt: 0,
    lastMoreClickAt: 0,
    lastDebugLog: "",
    pendingDebugLog: null,
  };

  const normalizeBlock = (value) => (value || "")
    .replace(/\u00a0/g, " ")
    .replace(/\r/g, "\n")
    .replace(/[ \t]+/g, " ")
    .replace(/\n{3,}/g, "\n\n")
    .trim();

  const linesOf = (value) => normalizeBlock(value)
    .split(/\n+/)
    .map((line) => line.trim())
    .filter(Boolean);

  const uniqueLines = (lines) => {
    const seen = new Set();
    return lines.filter((line) => {
      const key = line.toLowerCase();
      if (seen.has(key)) {
        return false;
      }
      seen.add(key);
      return true;
    });
  };

  const normalizeMatchText = (value) => uniqueLines(linesOf(value)).join(" ").toLowerCase();
  const textOf = (node) => normalizeBlock(node?.innerText || node?.textContent || "");
  const nowIso = () => new Date().toISOString();

  const isVisible = (element) => {
    if (!element || typeof element.getClientRects !== "function") {
      return false;
    }
    return element.getClientRects().length > 0;
  };

  const queueDebugLog = (message) => {
    if (!message || state.lastDebugLog === message) {
      return;
    }
    state.pendingDebugLog = message;
    state.lastDebugLog = message;
  };

  const drainDebugLog = () => {
    const message = state.pendingDebugLog;
    state.pendingDebugLog = null;
    return message;
  };

  const collectVisibleNodes = (selectors, limit = Number.POSITIVE_INFINITY) => {
    const nodes = [];
    const seen = new Set();
    for (const selector of selectors) {
      for (const node of document.querySelectorAll(selector)) {
        if (!isVisible(node) || seen.has(node)) {
          continue;
        }
        seen.add(node);
        nodes.push(node);
        if (nodes.length >= limit) {
          return nodes;
        }
      }
    }
    return nodes;
  };

  const clickableTarget = (node) => node?.closest?.('button, a, [role="button"], [role="link"], [tabindex]') || node;
  const clickElement = (node) => {
    const target = clickableTarget(node);
    if (!target || typeof target.click !== "function") {
      return false;
    }
    target.click();
    return true;
  };

  const fingerprint = (value) => {
    let hash = 2166136261;
    for (const char of value) {
      hash ^= char.charCodeAt(0);
      hash = Math.imul(hash, 16777619);
    }
    return (hash >>> 0).toString(16).padStart(8, "0");
  };

  const findMailboxButton = (label) => {
    const selectors = [
      '[data-testid*="navigation"] button',
      '[data-testid*="navigation"] a',
      '[data-testid*="sidebar"] button',
      '[data-testid*="sidebar"] a',
      '[role="navigation"] button',
      '[role="navigation"] a',
      'nav button',
      'nav a'
    ];
    const nodes = collectVisibleNodes(selectors, 96);
    const exactMatch = nodes.find((node) => {
      const text = normalizeMatchText(node.innerText || node.textContent || "");
      return text === label || text.startsWith(`${label} `) || text.endsWith(` ${label}`);
    });
    if (exactMatch) {
      return exactMatch;
    }
    return nodes.find((node) => normalizeMatchText(node.innerText || node.textContent || "").includes(label)) || null;
  };

  const currentMailboxLabel = () => {
    if (window.location.href.toLowerCase().includes("all-mail")) {
      return ALL_MAIL_LABEL;
    }
    const selectors = [
      '[aria-current="page"]',
      '[aria-selected="true"]',
      '[data-testid*="sidebar"] [aria-checked="true"]',
      'nav [aria-current="page"]',
      'nav [aria-selected="true"]'
    ];
    const active = collectVisibleNodes(selectors, 10);
    for (const node of active) {
      const text = normalizeMatchText(node.innerText || node.textContent || "");
      if (text) {
        return text;
      }
    }
    return null;
  };

  const ensureAllMailView = () => {
    if (!window.location.href.includes("mail.proton.me")) {
      return { ready: false, label: null };
    }

    const currentLabel = currentMailboxLabel();
    if (currentLabel && currentLabel.includes(ALL_MAIL_LABEL)) {
      return { ready: true, label: currentLabel };
    }

    const now = Date.now();
    const allMailButton = findMailboxButton(ALL_MAIL_LABEL);
    if (allMailButton) {
      if (now - state.lastAllMailClickAt > CLICK_THROTTLE_MS && clickElement(allMailButton)) {
        state.lastAllMailClickAt = now;
        queueDebugLog("Navigating Proton monitor to All Mail");
      }
      return { ready: false, label: currentLabel };
    }

    const moreButton = findMailboxButton(MORE_LABEL);
    if (moreButton) {
      if (now - state.lastMoreClickAt > CLICK_THROTTLE_MS && clickElement(moreButton)) {
        state.lastMoreClickAt = now;
        queueDebugLog("Expanding Proton mailbox list");
      }
      return { ready: false, label: currentLabel };
    }

    queueDebugLog("All Mail mailbox not found in Proton navigation");
    return { ready: false, label: currentLabel };
  };

  const extractRowMetadata = (text) => {
    const lines = uniqueLines(linesOf(text)).filter((line) => line.length >= 2);
    const sender = lines[0] || null;
    const subject = lines[1] || lines[0] || "Proton Mail";
    const snippet = lines.slice(2).join(" ");
    return { sender, subject, snippet, lineCount: lines.length };
  };

  const buildRowCandidate = (node, mailboxLabel) => {
    const text = textOf(node);
    if (text.length < 12) {
      return null;
    }

    const metadata = extractRowMetadata(text);
    if (metadata.lineCount > 8 || text.length > 420) {
      return null;
    }

    const hasCode = DIGIT_SEQUENCE.test(text);
    if (!hasCode && !OTP_TERMS.test(text)) {
      return null;
    }

    const stableKey = [
      mailboxLabel || "",
      node.getAttribute?.("data-testid") || "",
      node.getAttribute?.("data-id") || "",
      node.id || "",
      metadata.sender || "",
      metadata.subject || "",
      metadata.snippet || ""
    ].join("|") || text;

    return {
      node,
      fullText: text,
      hasCode,
      candidate: {
        message_id: `all-mail-${fingerprint(stableKey)}`,
        sender: metadata.sender,
        subject: metadata.subject,
        received_at: nowIso(),
        body_text: text
      }
    };
  };

  const collectRowCandidates = (mailboxLabel) => {
    const selectors = [
      '[data-testid*="conversation"]',
      '[data-testid*="item-row"]',
      '[data-testid*="message-row"]',
      '[data-testid*="item"]',
      '[role="main"] [role="row"]',
      'main [role="row"]',
      '[role="main"] article',
      'main article'
    ];

    const rows = collectVisibleNodes(selectors, MAX_ROW_SCAN * 4);
    const seenIds = new Set();
    const candidates = [];

    for (const row of rows) {
      const candidate = buildRowCandidate(row, mailboxLabel);
      if (!candidate || seenIds.has(candidate.candidate.message_id)) {
        continue;
      }
      seenIds.add(candidate.candidate.message_id);
      candidates.push(candidate);
      if (candidates.length >= MAX_ROW_SCAN) {
        break;
      }
    }

    return candidates;
  };

  const collectOpenedMessageText = () => {
    const selectors = [
      '[data-testid*="message-body"]',
      '[data-testid*="message-content"]',
      '[data-testid*="conversation"] [data-testid*="message"]',
      '[role="main"] article',
      '[role="main"] section',
      'main article',
      'main section',
      '[role="main"]',
      'main'
    ];

    const blocks = [];
    const seen = new Set();
    for (const selector of selectors) {
      for (const node of document.querySelectorAll(selector)) {
        if (!isVisible(node)) {
          continue;
        }
        const text = textOf(node);
        if (text.length < 24 || seen.has(text)) {
          continue;
        }
        seen.add(text);
        blocks.push(text);
        if (blocks.length >= 6) {
          return blocks.join("\n\n").slice(0, 40000);
        }
      }
    }

    return blocks.join("\n\n").slice(0, 40000);
  };

  const rememberFallbackAttempt = (messageId) => {
    if (state.fallbackAttemptedSet.has(messageId)) {
      return;
    }
    state.fallbackAttempted.push(messageId);
    state.fallbackAttemptedSet.add(messageId);
    while (state.fallbackAttempted.length > FALLBACK_ATTEMPT_LIMIT) {
      const staleId = state.fallbackAttempted.shift();
      state.fallbackAttemptedSet.delete(staleId);
    }
  };

  const clearPendingOpen = () => {
    state.pendingOpenedId = null;
    state.pendingOpenedBaseline = null;
    state.pendingOpenedRequestedAt = 0;
  };

  const maybeOpenFallbackCandidate = (rowCandidates) => {
    if (state.pendingOpenedId) {
      return false;
    }

    const fallback = rowCandidates.find((candidate) =>
      !candidate.hasCode && !state.fallbackAttemptedSet.has(candidate.candidate.message_id)
    );
    if (!fallback) {
      return false;
    }

    rememberFallbackAttempt(fallback.candidate.message_id);
    state.pendingOpenedId = fallback.candidate.message_id;
    state.pendingOpenedBaseline = fallback.fullText;
    state.pendingOpenedRequestedAt = Date.now();

    if (clickElement(fallback.node)) {
      queueDebugLog("Opening All Mail message for OTP fallback");
      return true;
    }

    clearPendingOpen();
    queueDebugLog("Failed to open All Mail message for OTP fallback");
    return false;
  };

  const collectOpenedMessageCandidate = () => {
    if (!state.pendingOpenedId) {
      return null;
    }

    const openedText = collectOpenedMessageText();
    if (!openedText) {
      if (Date.now() - state.pendingOpenedRequestedAt > OPEN_MESSAGE_TIMEOUT_MS) {
        queueDebugLog("Opened All Mail message did not expose readable content");
        clearPendingOpen();
      }
      return null;
    }

    if (openedText === state.pendingOpenedBaseline && Date.now() - state.pendingOpenedRequestedAt < OPEN_MESSAGE_TIMEOUT_MS) {
      return null;
    }

    const candidate = {
      message_id: state.pendingOpenedId,
      sender: null,
      subject: null,
      received_at: nowIso(),
      body_text: openedText
    };
    clearPendingOpen();
    queueDebugLog("Parsed opened All Mail message for OTP fallback");
    return candidate;
  };

  const collectPageText = () => normalizeBlock(document.body?.innerText || "").slice(0, 40000);

  const sendSnapshot = () => {
    const isMailPage = window.location.href.includes("mail.proton.me");
    const mailboxState = isMailPage ? ensureAllMailView() : { ready: false, label: null };
    const candidates = [];

    if (isMailPage && mailboxState.ready) {
      const rowCandidates = collectRowCandidates(mailboxState.label);
      if (rowCandidates.length > 0) {
        queueDebugLog(`All Mail scan found ${rowCandidates.length} OTP-like rows`);
      }

      const openedCandidate = collectOpenedMessageCandidate();
      if (openedCandidate) {
        candidates.push(openedCandidate);
      }

      const directCandidates = rowCandidates
        .filter((candidate) => candidate.hasCode)
        .map((candidate) => candidate.candidate)
        .slice(0, 5);
      candidates.push(...directCandidates);

      if (!openedCandidate && directCandidates.length === 0) {
        maybeOpenFallbackCandidate(rowCandidates);
      }
    }

    const payload = {
      kind: "snapshot",
      url: window.location.href,
      page_text: collectPageText(),
      mailbox_label: mailboxState.label || null,
      all_mail_ready: Boolean(mailboxState.ready),
      debug_log: drainDebugLog(),
      candidates
    };

    window.ipc.postMessage(JSON.stringify(payload));
  };

  "#;

/// What sets the time between two looks, before the number of milliseconds.
pub const SCHEDULE_HEAD: &'static str = "const schedule = ";

/// What sets the time between two looks, after the number of milliseconds.
pub const SCHEDULE_END: &'static str = ";";

/// The script that watches the mail page, after it has set the time between two
/// looks.
pub const MONITOR_TAIL: &'static str = r#"
  window.addEventListener("load", () => setTimeout(sendSnapshot, 1500));
  document.addEventListener("visibilitychange", sendSnapshot);
  new MutationObserver(() => {
    window.clearTimeout(window.__protoncodeMutationTimer);
    window.__protoncodeMutationTimer = window.setTimeout(sendSnapshot, 800);
  }).observe(document.documentElement, { childList: true, subtree: true, characterData: true });
  window.setInterval(sendSnapshot, schedule);
  sendSnapshot();
})();
"#;

/// The start of both pages, up to the fonts.
pub const PAGE_HEAD: &'static str = r#"<!doctype html>
<html>
  <head>
    <meta charset="utf-8" />
    <meta name="viewport" content="width=device-width, initial-scale=1" />
    <style>
"#;

/// The page of the overlay, after the fonts.
pub const OVERLAY_REST: &'static str = r#"
      :root {
        color-scheme: dark;
        --bg: #181818;
        --panel: rgba(24, 24, 24, 0.94);
        --surface: rgba(255, 255, 255, 0.04);
        --text: #e2e8f0;
        --muted: #64748b;
        --accent: #8b5cf6;
        --font: "Segoe UI", "Ubuntu Local", sans-serif;
      }
      * {
        box-sizing: border-box;
      }
      html, body {
        margin: 0;
        width: 100%;
        height: 100%;
        background: rgba(0, 0, 0, 0) !important;
        overflow: hidden;
        font-family: var(--font);
        overscroll-behavior: none;
      }
      .shell {
        width: 100%;
        height: 100%;
        display: flex;
        align-items: stretch;
        justify-content: stretch;
        padding: 12px;
        background: transparent;
      }
      .card {
        width: 100%;
        height: 100%;
        padding: 18px;
        border-radius: 22px;
        background: var(--panel);
        color: var(--text);
        box-shadow: 0 24px 60px rgba(0, 0, 0, 0.42);
        display: flex;
        flex-direction: column;
        gap: 12px;
        opacity: 0;
        transform: translateY(12px) scale(0.985);
        overflow: hidden;
      }
      .card.is-visible {
        animation: overlay-enter 180ms cubic-bezier(0.22, 1, 0.36, 1) both;
      }
      @keyframes overlay-enter {
        from {
          opacity: 0;
          transform: translateY(12px) scale(0.985);
        }
        to {
          opacity: 1;
          transform: translateY(0) scale(1);
        }
      }
      .brand-row {
        display: flex;
        align-items: center;
        justify-content: space-between;
        gap: 12px;
      }
      .brand {
        display: flex;
        align-items: center;
        gap: 12px;
      }
      .brand-mark {
        width: 18px;
        height: 18px;
        border-radius: 6px;
        display: block;
      }
      .brand-label {
        color: #ffffff;
        font-size: 16px;
        font-weight: 400;
        letter-spacing: -0.02em;
      }
      .dismiss {
        width: 32px;
        height: 32px;
        min-width: 32px;
      }
      .headline {
        color: var(--muted);
        font-size: 13px;
        letter-spacing: 0.02em;
      }
      .source {
        color: #ffffff;
        font-size: 16px;
        font-weight: 400;
        line-height: 1.35;
        display: -webkit-box;
        overflow: hidden;
        text-overflow: ellipsis;
        -webkit-box-orient: vertical;
        -webkit-line-clamp: 3;
        min-height: 2.7em;
        overflow-wrap: anywhere;
      }
      .code-row {
        display: grid;
        grid-template-columns: minmax(0, 1fr) auto;
        align-items: stretch;
        gap: 10px;
        min-height: 56px;
      }
      .code {
        min-width: 0;
        padding: 0 16px;
        border-radius: 16px;
        background: rgba(255, 255, 255, 0.06);
        color: #ffffff;
        display: flex;
        align-items: center;
        justify-content: center;
        font-size: 28px;
        font-weight: 400;
        letter-spacing: 0.2em;
        text-align: center;
        white-space: nowrap;
        overflow: hidden;
        text-overflow: ellipsis;
      }
      .code-actions {
        display: flex;
        align-items: center;
        gap: 8px;
      }
      button {
        appearance: none;
        border: 0;
        border-radius: 999px;
        padding: 10px 14px;
        min-width: 0;
        background: rgba(255, 255, 255, 0.05);
        color: var(--muted);
        font-family: var(--font);
        font-size: 12px;
        font-weight: 400;
        cursor: pointer;
        transition: color 0.2s ease, background 0.2s ease;
      }
      button:hover {
        color: #ffffff;
        background: rgba(139, 92, 246, 0.16);
      }
      .icon-button {
        width: 44px;
        height: 44px;
        display: inline-flex;
        align-items: center;
        justify-content: center;
        padding: 0;
        flex-shrink: 0;
      }
      .icon-button svg {
        width: 17px;
        height: 17px;
        stroke: currentColor;
        stroke-width: 1.8;
        fill: none;
        stroke-linecap: round;
        stroke-linejoin: round;
      }
      .meta {
        display: flex;
        align-items: center;
        gap: 8px;
        color: var(--muted);
        font-size: 12px;
        line-height: 1.4;
        min-height: 18px;
      }
      .meta strong {
        color: #ffffff;
        font-weight: 500;
      }
      [hidden] {
        display: none !important;
      }
    </style>
  </head>
  <body>
    <div class="shell">
      <div class="card" id="card" hidden>
        <div class="brand-row">
          <div class="brand">
            <img class="brand-mark" src="" alt="ProtonCode icon" id="brand-mark" />
            <div class="brand-label">ProtonCode</div>
          </div>
          <button class="dismiss icon-button" id="dismiss" type="button" aria-label="Dismiss notification" title="Dismiss">
            <svg viewBox="0 0 24 24" aria-hidden="true">
              <path d="M6 6L18 18"></path>
              <path d="M18 6L6 18"></path>
            </svg>
          </button>
        </div>
        <div class="headline" id="received-at">Received now</div>
        <div class="source" id="source">Waiting for the next code</div>
        <div class="code-row">
          <div class="code" id="code">******</div>
          <div class="code-actions">
            <button class="icon-button" id="toggle" type="button" aria-label="Reveal code" title="Reveal code"></button>
            <button class="icon-button" id="copy" type="button" aria-label="Copy code" title="Copy code">
              <svg viewBox="0 0 24 24" aria-hidden="true">
                <rect x="9" y="9" width="10" height="10" rx="2"></rect>
                <path d="M7 15H6a2 2 0 0 1-2-2V6a2 2 0 0 1 2-2h7a2 2 0 0 1 2 2v1"></path>
              </svg>
            </button>
          </div>
        </div>
        <div class="meta" id="meta">
          <span>Masked by default. Copy stays manual.</span>
        </div>
      </div>
    </div>
    <script>
      const state = {
        maskedCode: "******",
        rawCode: "",
        revealed: false,
        hideTimer: null,
        hideStartedAt: 0,
        remainingMs: 0,
        hovering: false,
      };
      const eyeIcon = `
        <svg viewBox="0 0 24 24" aria-hidden="true">
          <path d="M2 12s3.5-6 10-6 10 6 10 6-3.5 6-10 6S2 12 2 12Z"></path>
          <circle cx="12" cy="12" r="3"></circle>
        </svg>`;
      const eyeSlashIcon = `
        <svg viewBox="0 0 24 24" aria-hidden="true">
          <path d="M3 3l18 18"></path>
          <path d="M10.6 10.7a2 2 0 0 0 2.7 2.7"></path>
          <path d="M9.4 5.6A11.5 11.5 0 0 1 12 5.3c6.5 0 10 6.7 10 6.7a17.6 17.6 0 0 1-4.3 4.8"></path>
          <path d="M6.2 6.2A17.3 17.3 0 0 0 2 12s3.5 6.7 10 6.7c1 0 2-.2 2.9-.5"></path>
        </svg>`;

      document.getElementById("brand-mark").src = "__APP_ICON__";
      document.documentElement.style.background = "transparent";
      document.body.style.background = "transparent";

      const card = document.getElementById("card");
      const code = document.getElementById("code");
      const source = document.getElementById("source");
      const receivedAt = document.getElementById("received-at");
      const copy = document.getElementById("copy");
      const toggle = document.getElementById("toggle");
      const meta = document.getElementById("meta");

      toggle.addEventListener("click", () => {
        state.revealed = !state.revealed;
        renderCode();
      });

      document.getElementById("dismiss").addEventListener("click", () => {
        window.ipc.postMessage(JSON.stringify({ action: "dismiss" }));
        hide();
      });

      copy.addEventListener("click", () => {
        window.ipc.postMessage(JSON.stringify({ action: "copy" }));
      });

      function renderCode() {
        const isRevealed = state.revealed;
        code.textContent = isRevealed ? state.rawCode : state.maskedCode;
        toggle.innerHTML = isRevealed ? eyeSlashIcon : eyeIcon;
        toggle.setAttribute("aria-label", isRevealed ? "Hide code" : "Reveal code");
        toggle.title = isRevealed ? "Hide code" : "Reveal code";
      }

      function hide() {
        window.clearTimeout(state.hideTimer);
        state.hideTimer = null;
        state.hideStartedAt = 0;
        state.remainingMs = 0;
        card.classList.remove("is-visible");
        card.hidden = true;
        state.revealed = false;
        renderCode();
      }

      function dismissAfterTimeout() {
        window.ipc.postMessage(JSON.stringify({ action: "dismiss" }));
        hide();
      }

      function scheduleHide(delayMs) {
        window.clearTimeout(state.hideTimer);
        state.hideTimer = null;
        state.remainingMs = Math.max(0, Math.round(delayMs));
        if (state.remainingMs === 0 || state.hovering) {
          return;
        }

        state.hideStartedAt = Date.now();
        state.hideTimer = window.setTimeout(() => {
          dismissAfterTimeout();
        }, state.remainingMs);
      }

      function pauseHide() {
        if (state.hideTimer === null) {
          return;
        }

        const elapsedMs = Date.now() - state.hideStartedAt;
        window.clearTimeout(state.hideTimer);
        state.hideTimer = null;
        state.hideStartedAt = 0;
        state.remainingMs = Math.max(0, state.remainingMs - elapsedMs);
      }

      function resumeHide() {
        if (card.hidden || state.remainingMs <= 0) {
          return;
        }

        scheduleHide(state.remainingMs);
      }

      card.addEventListener("pointerenter", () => {
        state.hovering = true;
        pauseHide();
      });

      card.addEventListener("pointerleave", () => {
        state.hovering = false;
        resumeHide();
      });

      window.__PROTON2FA_OVERLAY = {
        show(payload) {
          source.textContent = payload.source_label;
          state.maskedCode = payload.masked_code;
          state.rawCode = payload.raw_code;
          receivedAt.textContent = payload.received_at_label ? `Received ${payload.received_at_label}` : "Received now";
          meta.innerHTML = payload.copy_enabled
            ? "<span>Masked by default. <strong>Copy stays manual.</strong></span>"
            : "<span>Masked by default. Copy is currently disabled.</span>";
          copy.hidden = !payload.copy_enabled;
          state.revealed = false;
          renderCode();
          card.hidden = false;
          card.classList.remove("is-visible");
          void card.offsetWidth;
          window.requestAnimationFrame(() => {
            card.classList.add("is-visible");
          });
          state.hovering = false;
          scheduleHide(payload.duration_ms);
        }
      };
    </script>
  </body>
</html>
"#;

/// The page of the settings window, after the fonts.
pub const SETTINGS_REST: &'static str = r#"
      :root {
        color-scheme: dark;
        --bg: #181818;
        --border: #343434;
        --muted: #64748b;
        --text: #e2e8f0;
        --accent: #8b5cf6;
        --font: "Segoe UI", "Ubuntu Local", sans-serif;
      }
      * {
        box-sizing: border-box;
      }
      html,
      body {
        margin: 0;
        min-height: 100%;
        background: var(--bg);
        color: var(--text);
        font-family: var(--font);
        -webkit-font-smoothing: antialiased;
      }
      body {
        min-height: 100vh;
        display: flex;
        align-items: center;
        justify-content: center;
        padding: 48px;
      }
      ::selection {
        background: rgba(139, 92, 246, 0.3);
      }
      [hidden] {
        display: none !important;
      }
      main {
        position: relative;
        width: 100%;
        max-width: 760px;
        min-height: 560px;
        display: flex;
        flex-direction: column;
        gap: 72px;
      }
      .boot-skeleton {
        position: absolute;
        inset: 0;
        display: grid;
        align-content: start;
        gap: 36px;
        padding: 0;
        background: var(--bg);
        pointer-events: none;
        transition: opacity 180ms ease, visibility 0ms linear 180ms;
      }
      body:not(.loading) .boot-skeleton {
        opacity: 0;
        visibility: hidden;
      }
      .skeleton-header,
      .skeleton-grid,
      .skeleton-footer {
        display: grid;
      }
      .skeleton-header {
        gap: 16px;
      }
      .skeleton-grid {
        grid-template-columns: minmax(0, 1fr) minmax(0, 1fr);
        column-gap: 80px;
        row-gap: 64px;
      }
      .skeleton-footer {
        grid-template-columns: 140px 120px 1fr 110px;
        align-items: center;
        gap: 16px;
        padding-top: 40px;
        border-top: 1px solid rgba(30, 33, 40, 0.5);
      }
      .skeleton-block,
      .skeleton-pill,
      .skeleton-line {
        background: linear-gradient(90deg, rgba(255, 255, 255, 0.04), rgba(255, 255, 255, 0.09), rgba(255, 255, 255, 0.04));
        background-size: 220% 100%;
        animation: skeleton-shimmer 1.1s linear infinite;
      }
      .skeleton-block {
        border-radius: 20px;
      }
      .skeleton-line {
        height: 12px;
        border-radius: 999px;
      }
      .skeleton-pill {
        height: 38px;
        border-radius: 999px;
      }
      .skeleton-brand {
        width: 168px;
        height: 28px;
      }
      .skeleton-state {
        width: 138px;
      }
      .skeleton-version {
        width: 52px;
        height: 12px;
        justify-self: end;
      }
      .skeleton-metric {
        display: grid;
        gap: 18px;
      }
      .skeleton-label {
        width: 72px;
      }
      .skeleton-value {
        width: 168px;
        height: 62px;
      }
      .skeleton-toggle-group {
        display: grid;
        gap: 28px;
      }
      .skeleton-toggle-row,
      .skeleton-last-code {
        display: flex;
        align-items: center;
        justify-content: space-between;
        gap: 20px;
      }
      .skeleton-toggle-label {
        width: 128px;
      }
      .skeleton-switch {
        width: 40px;
        height: 24px;
        border-radius: 999px;
      }
      .skeleton-code-label {
        width: 76px;
      }
      .skeleton-code {
        width: 132px;
      }
      @keyframes skeleton-shimmer {
        from {
          background-position: 200% 0;
        }
        to {
          background-position: -20% 0;
        }
      }
      header {
        display: flex;
        align-items: flex-end;
        justify-content: space-between;
        gap: 24px;
      }
      h1 {
        margin: 0;
        display: flex;
        align-items: center;
        gap: 12px;
        color: #ffffff;
        font-size: 24px;
        font-weight: 400;
        letter-spacing: -0.02em;
      }
      .brand-mark {
        width: 22px;
        height: 22px;
        display: block;
        border-radius: 7px;
      }
      .session-state {
        margin: 6px 0 0;
        color: var(--muted);
        font-size: 14px;
      }
      .version {
        color: var(--muted);
        font-size: 10px;
        font-weight: 500;
        letter-spacing: 0.26em;
        text-transform: uppercase;
        border-bottom: 1px solid var(--border);
        padding-bottom: 4px;
        white-space: nowrap;
      }
      .settings-grid {
        display: grid;
        grid-template-columns: minmax(0, 1fr) minmax(0, 1fr);
        column-gap: 80px;
        row-gap: 64px;
      }
      .number-group {
        display: flex;
        flex-direction: column;
        gap: 6px;
      }
      .number-label {
        color: var(--muted);
        font-size: 11px;
        letter-spacing: 0.16em;
        text-transform: uppercase;
      }
      .number-input-row {
        display: inline-flex;
        align-items: flex-end;
        gap: 10px;
      }
      input[type="number"] {
        width: 58px;
        padding: 0 0 6px;
        border: 0;
        border-bottom: 1px solid rgba(255, 255, 255, 0.16);
        outline: none;
        background: transparent;
        color: #ffffff;
        font-family: var(--font);
        font-size: 48px;
        font-weight: 300;
        line-height: 1;
        transition: border-color 0.2s ease;
        appearance: textfield;
      }
      input[type="number"]::-webkit-inner-spin-button,
      input[type="number"]::-webkit-outer-spin-button {
        -webkit-appearance: none;
        margin: 0;
      }
      .number-group:hover input[type="number"] {
        border-bottom-color: rgba(255, 255, 255, 0.28);
      }
      input[type="number"]:focus {
        border-bottom-color: var(--accent);
      }
      .number-unit {
        padding-bottom: 10px;
        color: var(--muted);
        font-size: 14px;
        font-weight: 300;
      }
      .right-column {
        display: flex;
        flex-direction: column;
        gap: 32px;
        padding-top: 4px;
      }
      .toggle-row {
        display: flex;
        align-items: center;
        justify-content: space-between;
        gap: 20px;
        cursor: pointer;
        padding: 6px 0;
      }
      .toggle-label {
        color: var(--muted);
        font-size: 14px;
        transition: color 0.2s ease;
      }
      .toggle-row:hover .toggle-label {
        color: #ffffff;
      }
      .toggle-input {
        position: absolute;
        inset: 0;
        margin: 0;
        opacity: 0;
        cursor: pointer;
      }
      .toggle-control {
        position: relative;
        display: inline-flex;
        align-items: center;
        width: 40px;
        height: 24px;
        flex-shrink: 0;
      }
      .toggle-switch {
        width: 40px;
        height: 24px;
        display: inline-block;
        position: relative;
        border-radius: 999px;
        background: #2d2d34;
        border: 1px solid rgba(255, 255, 255, 0.14);
        box-shadow: inset 0 1px 1px rgba(255, 255, 255, 0.04);
        pointer-events: none;
        transition: background 0.2s ease, border-color 0.2s ease, box-shadow 0.2s ease;
      }
      .toggle-switch::after {
        content: "";
        position: absolute;
        top: 3px;
        left: 3px;
        width: 16px;
        height: 16px;
        border-radius: 50%;
        background: #d5dce7;
        box-shadow: 0 1px 2px rgba(0, 0, 0, 0.25);
        transition: transform 0.2s ease, background 0.2s ease;
      }
      .toggle-switch.is-on {
        background: var(--accent);
        border-color: rgba(139, 92, 246, 0.7);
        box-shadow: 0 0 0 1px rgba(139, 92, 246, 0.12), 0 8px 18px rgba(91, 33, 182, 0.18);
      }
      .toggle-switch.is-on::after {
        transform: translateX(16px);
        background: #ffffff;
      }
      .last-code {
        display: flex;
        align-items: center;
        justify-content: space-between;
        gap: 20px;
      }
      .last-code-label {
        color: var(--muted);
        font-size: 14px;
      }
      .last-code-value {
        color: var(--accent);
        font-size: 14px;
        font-weight: 500;
        letter-spacing: 0.22em;
        text-transform: uppercase;
        text-align: right;
      }
      .last-code-value.empty {
        color: var(--muted);
        font-weight: 400;
        letter-spacing: 0;
        text-transform: none;
      }
      footer {
        display: flex;
        align-items: center;
        gap: 16px;
        padding-top: 40px;
        border-top: 1px solid rgba(30, 33, 40, 0.5);
        flex-wrap: wrap;
      }
      button {
        appearance: none;
        border: 0;
        background: transparent;
        color: var(--muted);
        font-family: var(--font);
        font-size: 12px;
        cursor: pointer;
        transition: color 0.2s ease, background 0.2s ease, border-color 0.2s ease;
      }
      button:hover {
        color: #ffffff;
      }
      .primary-action {
        padding: 10px 20px;
        border-radius: 999px;
        border: 1px solid rgba(255, 255, 255, 0.1);
        background: rgba(255, 255, 255, 0.05);
        color: #ffffff;
      }
      .primary-action:hover {
        background: rgba(255, 255, 255, 0.1);
      }
      .spacer {
        flex: 1;
      }
      .hide-button {
        display: inline-flex;
        align-items: center;
        gap: 8px;
      }
      .hide-glyph {
        font-size: 14px;
        line-height: 1;
      }
      .debug-panel {
        position: absolute;
        left: 0;
        right: 0;
        bottom: 0;
        z-index: 20;
        display: flex;
        flex-direction: column;
        gap: 10px;
        padding: 16px 18px;
        border: 1px solid rgba(139, 92, 246, 0.18);
        border-radius: 18px;
        background: rgba(10, 10, 12, 0.96);
        box-shadow: 0 18px 40px rgba(0, 0, 0, 0.35);
      }
      .debug-panel[hidden] {
        display: none !important;
      }
      .debug-title {
        color: #ffffff;
        font-size: 11px;
        letter-spacing: 0.16em;
        text-transform: uppercase;
      }
      .debug-output {
        margin: 0;
        max-height: 180px;
        overflow: auto;
        color: #b6c0cd;
        font-family: "SFMono-Regular", Consolas, "Liberation Mono", Menlo, monospace;
        font-size: 11px;
        line-height: 1.55;
        white-space: pre-wrap;
        word-break: break-word;
      }
      @media (max-width: 720px) {
        body {
          padding: 28px;
        }
        main {
          gap: 56px;
        }
        header,
        .settings-grid,
        footer {
          display: flex;
          flex-direction: column;
          align-items: flex-start;
        }
        .settings-grid {
          gap: 40px;
        }
        .right-column {
          width: 100%;
          gap: 24px;
        }
        .toggle-row,
        .last-code {
          width: 100%;
        }
        .spacer {
          display: none;
        }
      }
    </style>
  </head>
  <body class="loading">
    <main id="app-shell">
      <header>
        <div>
          <h1>
            <img class="brand-mark" src="" alt="ProtonCode icon" id="brand-mark" />
            <span>ProtonCode</span>
          </h1>
          <p class="session-state" id="session-state">Starting Proton Mail...</p>
        </div>
        <div class="version">__APP_VERSION__</div>
      </header>

      <section class="settings-grid">
        <div class="left-column">
          <div class="number-group">
            <label class="number-label" for="poll-interval">Interval</label>
            <div class="number-input-row">
              <input id="poll-interval" type="number" min="5" max="30" />
              <span class="number-unit">seconds</span>
            </div>
          </div>

          <div class="number-group" style="margin-top: 36px;">
            <label class="number-label" for="notification-duration">Duration</label>
            <div class="number-input-row">
              <input id="notification-duration" type="number" min="5" max="15" />
              <span class="number-unit">seconds</span>
            </div>
          </div>
        </div>

        <div class="right-column">
          <label class="toggle-row" for="copy-button-enabled">
            <span class="toggle-label">Allow Copy</span>
            <span class="toggle-control">
              <input class="toggle-input" id="copy-button-enabled" type="checkbox" />
              <span class="toggle-switch" id="copy-button-toggle"></span>
            </span>
          </label>

          <label class="toggle-row" for="launch-on-startup">
            <span class="toggle-label">Launch at Sign-In</span>
            <span class="toggle-control">
              <input class="toggle-input" id="launch-on-startup" type="checkbox" />
              <span class="toggle-switch" id="launch-on-startup-toggle"></span>
            </span>
          </label>

          <div class="last-code">
            <span class="last-code-label">Last Code</span>
            <span class="last-code-value empty" id="last-code">No code received yet</span>
          </div>
        </div>
      </section>

      <footer>
        <button class="primary-action" id="save" type="button">Save Changes</button>
        <button id="login" type="button">Open Proton Mail</button>
        <div class="spacer"></div>
        <button class="hide-button" id="close" type="button">
          <span class="hide-glyph">−</span>
          <span>Hide Window</span>
        </button>
      </footer>

      <section class="debug-panel" id="debug-panel" hidden>
        <div class="debug-title">Debug Logs</div>
        <pre class="debug-output" id="debug-output">No debug logs yet.</pre>
      </section>

      <div class="boot-skeleton" aria-hidden="true">
        <div class="skeleton-header">
          <div class="skeleton-line skeleton-brand"></div>
          <div class="skeleton-line skeleton-state"></div>
          <div class="skeleton-line skeleton-version"></div>
        </div>
        <div class="skeleton-grid">
          <div class="skeleton-metric">
            <div class="skeleton-line skeleton-label"></div>
            <div class="skeleton-block skeleton-value"></div>
            <div class="skeleton-line skeleton-label"></div>
            <div class="skeleton-block skeleton-value"></div>
          </div>
          <div class="skeleton-toggle-group">
            <div class="skeleton-toggle-row">
              <div class="skeleton-line skeleton-toggle-label"></div>
              <div class="skeleton-block skeleton-switch"></div>
            </div>
            <div class="skeleton-toggle-row">
              <div class="skeleton-line skeleton-toggle-label"></div>
              <div class="skeleton-block skeleton-switch"></div>
            </div>
            <div class="skeleton-last-code">
              <div class="skeleton-line skeleton-code-label"></div>
              <div class="skeleton-line skeleton-code"></div>
            </div>
          </div>
        </div>
        <div class="skeleton-footer">
          <div class="skeleton-pill"></div>
          <div class="skeleton-pill"></div>
          <div></div>
          <div class="skeleton-pill"></div>
        </div>
      </div>

    </main>
    <script>
      document.getElementById("brand-mark").src = "__APP_ICON__";
      const appShell = document.getElementById("app-shell");

      const elements = {
        sessionState: document.getElementById("session-state"),
        lastCode: document.getElementById("last-code"),
        pollInterval: document.getElementById("poll-interval"),
        notificationDuration: document.getElementById("notification-duration"),
        copyEnabled: document.getElementById("copy-button-enabled"),
        launchOnStartup: document.getElementById("launch-on-startup"),
        copyToggle: document.getElementById("copy-button-toggle"),
        launchToggle: document.getElementById("launch-on-startup-toggle"),
        debugPanel: document.getElementById("debug-panel"),
        debugOutput: document.getElementById("debug-output")
      };
      const uiState = { debugVisible: false };

      document.getElementById("save").addEventListener("click", () => {
        window.ipc.postMessage(JSON.stringify({
          kind: "save_config",
          poll_interval_seconds: Number(elements.pollInterval.value),
          notification_duration_seconds: Number(elements.notificationDuration.value),
          copy_button_enabled: elements.copyEnabled.checked,
          launch_on_startup: elements.launchOnStartup.checked
        }));
      });

      document.getElementById("login").addEventListener("click", () => {
        window.ipc.postMessage(JSON.stringify({ kind: "login_window" }));
      });

      document.getElementById("close").addEventListener("click", () => {
        window.ipc.postMessage(JSON.stringify({ kind: "hide_status" }));
      });

      function syncToggleVisual(input, visual) {
        visual.classList.toggle("is-on", Boolean(input.checked));
      }

      elements.copyEnabled.addEventListener("change", () => {
        syncToggleVisual(elements.copyEnabled, elements.copyToggle);
      });

      elements.launchOnStartup.addEventListener("change", () => {
        syncToggleVisual(elements.launchOnStartup, elements.launchToggle);
      });

      function isEditableTarget(target) {
        if (!(target instanceof Element)) {
          return false;
        }

        return target.closest("input, textarea, select, [contenteditable=\"true\"]") !== null;
      }

      function handleKeydown(event) {
        if (event.defaultPrevented || event.repeat) {
          return;
        }

        if (event.ctrlKey || event.metaKey || event.altKey) {
          return;
        }

        if (isEditableTarget(event.target)) {
          return;
        }

        if (event.code === "KeyP") {
          event.preventDefault();
          window.ipc.postMessage(JSON.stringify({ kind: "test_notification" }));
          return;
        }

        if (event.code === "KeyL") {
          event.preventDefault();
          uiState.debugVisible = !uiState.debugVisible;
          elements.debugPanel.hidden = !uiState.debugVisible;
          return;
        }
      }

      window.addEventListener("keydown", handleKeydown, { capture: true });
      document.addEventListener("keydown", handleKeydown, { capture: true });

      window.__PROTON2FA_STATUS = {
        render(payload) {
          const hasCode = Boolean(payload.last_masked_code);
          document.body.classList.remove("loading");
          appShell.dataset.ready = "true";
          elements.sessionState.textContent = payload.session_state;
          elements.lastCode.textContent = payload.last_masked_code || "No code received yet";
          elements.lastCode.classList.toggle("empty", !hasCode);
          elements.pollInterval.value = payload.poll_interval_seconds;
          elements.notificationDuration.value = payload.notification_duration_seconds;
          elements.copyEnabled.checked = payload.copy_button_enabled;
          elements.launchOnStartup.checked = payload.launch_on_startup;
          elements.debugOutput.textContent = payload.debug_logs.length
            ? payload.debug_logs.join("\n")
            : "No debug logs yet.";
          elements.debugPanel.hidden = !uiState.debugVisible;
          syncToggleVisual(elements.copyEnabled, elements.copyToggle);
          syncToggleVisual(elements.launchOnStartup, elements.launchToggle);
        }
      };
    </script>
  </body>
</html>
"#;

/// The fonts of both pages.
pub const FONT_FACES: &'static str = r#"
      @font-face {
        font-family: "Arizona Sans Local";
        src: url("protoncode://app/fonts/arizona-sans.ttf") format("truetype");
        font-style: normal;
        font-weight: 100 700;
        font-display: swap;
      }
      @font-face {
        font-family: "Arizona Flare Local";
        src: url("protoncode://app/fonts/arizona-flare.ttf") format("truetype");
        font-style: normal;
        font-weight: 100 700;
        font-display: swap;
      }
      @font-face {
        font-family: "Ubuntu Local";
        src: url("protoncode://app/fonts/ubuntu-r.ttf") format("truetype");
        font-style: normal;
        font-weight: 400;
      }
      @font-face {
        font-family: "Ubuntu Local";
        src: url("protoncode://app/fonts/ubuntu-m.ttf") format("truetype");
        font-style: normal;
        font-weight: 500 700;
      }
"#;

/// What stands in a page for the address of the icon.
pub const ICON_MARK: &'static str = "__APP_ICON__";

/// What stands in a page for the version of the application.
pub const VERSION_MARK: &'static str = "__APP_VERSION__";

/// What the address of the icon starts with.
pub const ICON_URL_HEAD: &'static str = "data:image/png;base64,";

/// The milliseconds between two looks at the mail page: at least five seconds.
pub open spec fn schedule_ms(poll_interval_seconds: u64) -> nat {
    if poll_interval_seconds < 5 {
        5000
    } else {
        (poll_interval_seconds * 1000) as nat
    }
}

/// The script that watches the mail page, with a look every
/// `poll_interval_seconds`.
pub open spec fn monitor_script(poll_interval_seconds: u64) -> Seq<char> {
    MONITOR_HEAD@ + SCHEDULE_HEAD@ + decimal(schedule_ms(poll_interval_seconds)) + SCHEDULE_END@
        + MONITOR_TAIL@
}

/// The script that watches the mail page, with a look every
/// `poll_interval_seconds`.
pub fn proton_monitor_script(poll_interval_seconds: u64) -> (script: String)
    requires
        poll_interval_seconds * 1000 <= u64::MAX,
    ensures
        script@ == monitor_script(poll_interval_seconds),
{
    let seconds: u64 = if poll_interval_seconds < 5 {
        5
    } else {
        poll_interval_seconds
    };
    let mut script: String = MONITOR_HEAD.to_owned();
    script.append(SCHEDULE_HEAD);
    push_decimal(&mut script, seconds * 1000);
    script.append(SCHEDULE_END);
    script.append(MONITOR_TAIL);
    script
}

/// The fonts of both pages.
pub fn embedded_font_face_css() -> (css: &'static str)
    ensures
        css@ == FONT_FACES@,
{
    FONT_FACES
}

/// The page of the overlay, with the icon at `icon_url`.
pub fn overlay_html(icon_url: &str) -> (html: String)
    ensures
        html@ == replaced(PAGE_HEAD@ + FONT_FACES@ + OVERLAY_REST@, ICON_MARK@, icon_url@),
{
    let mut html: String = PAGE_HEAD.to_owned();
    html.append(embedded_font_face_css());
    html.append(OVERLAY_REST);
    proof {
        reveal_strlit("__APP_ICON__");
    }
    replace_all(html.as_str(), ICON_MARK, icon_url)
}

/// The page of the settings window, with the icon at `icon_url` and the version
/// of the application.
pub fn settings_html(icon_url: &str, version: &str) -> (html: String)
    ensures
        html@ == replaced(
            replaced(PAGE_HEAD@ + FONT_FACES@ + SETTINGS_REST@, ICON_MARK@, icon_url@),
            VERSION_MARK@,
            seq!['v'] + version@,
        ),
{
    let mut html: String = PAGE_HEAD.to_owned();
    html.append(embedded_font_face_css());
    html.append(SETTINGS_REST);
    let mut shown_version: String = String::new();
    shown_version.push('v');
    shown_version.append(version);
    proof {
        reveal_strlit("__APP_ICON__");
        reveal_strlit("__APP_VERSION__");
        assert(shown_version@ =~= seq!['v'] + version@);
    }
    let with_icon: String = replace_all(html.as_str(), ICON_MARK, icon_url);
    replace_all(with_icon.as_str(), VERSION_MARK, shown_version.as_str())
}

/// The character for six bits in the standard Base64 alphabet.
pub open spec fn base64_char(sextet: int) -> char {
    if sextet < 26 {
        ((65 + sextet) as u8) as char
    } else if sextet < 52 {
        ((71 + sextet) as u8) as char
    } else if sextet < 62 {
        ((sextet - 4) as u8) as char
    } else if sextet == 62 {
        '+'
    } else {
        '/'
    }
}

/// The byte at `at`, or zero behind the last one.
pub open spec fn byte_or_zero(bytes: Seq<u8>, at: int) -> int {
    if at < bytes.len() {
        bytes[at] as int
    } else {
        0
    }
}

/// Bytes in standard Base64: each three bytes are four characters of six bits,
/// highest bits first, and `=` stands where there are no bits left.
pub open spec fn base64_text(bytes: Seq<u8>) -> Seq<char> {
    Seq::new(
        4 * ((bytes.len() + 2) / 3),
        |i: int|
            {
                let at = 3 * (i / 4);
                let bits = byte_or_zero(bytes, at) * 65536 + byte_or_zero(bytes, at + 1) * 256
                    + byte_or_zero(bytes, at + 2);
                if at + i % 4 > bytes.len() {
                    '='
                } else if i % 4 == 0 {
                    base64_char(bits / 262144)
                } else if i % 4 == 1 {
                    base64_char((bits / 4096) % 64)
                } else if i % 4 == 2 {
                    base64_char((bits / 64) % 64)
                } else {
                    base64_char(bits % 64)
                }
            },
    )
}

/// Bytes in Base64, from `base64::Engine::encode` with the engine
/// `base64::engine::general_purpose::STANDARD`: the standard alphabet, with
/// padding. It panics where the text would be longer than memory can be, so
/// that is left out.
#[verifier::external_body]
fn encode_base64(bytes: &Vec<u8>) -> (text: String)
    requires
        4 * ((bytes@.len() + 2) / 3) <= isize::MAX,
    ensures
        text@ == base64_text(bytes@),
{
    base64::engine::general_purpose::STANDARD.encode(bytes)
}

/// The address of an icon that holds its bytes, which are a PNG image.
pub fn app_icon_data_url(icon: &Vec<u8>) -> (url: String)
    requires
        4 * ((icon@.len() + 2) / 3) <= isize::MAX,
    ensures
        url@ == ICON_URL_HEAD@ + base64_text(icon@),
{
    let mut url: String = ICON_URL_HEAD.to_owned();
    let encoded: String = encode_base64(icon);
    url.append(encoded.as_str());
    url
}

/// A font that the pages use.
#[derive(Debug, Clone, Copy, PartialEq, Eq, Structural)]
pub enum Font {
    /// Arizona Sans.
    ArizonaSans,
    /// Arizona Flare.
    ArizonaFlare,
    /// Ubuntu, regular weight.
    UbuntuRegular,
    /// Ubuntu, medium weight.
    UbuntuMedium,
}

impl Font {
    /// The name of the file that holds the font.
    pub fn file_name(&self) -> (name: &'static str)
        ensures
            name@ == match self {
                Font::ArizonaSans => "ABCArizonaSansVariable-Trial.ttf"@,
                Font::ArizonaFlare => "ABCArizonaFlareVariable-Trial.ttf"@,
                Font::UbuntuRegular => "ubuntu-r.ttf"@,
                Font::UbuntuMedium => "ubuntu-m.ttf"@,
            },
    {
        match self {
            Font::ArizonaSans => "ABCArizonaSansVariable-Trial.ttf",
            Font::ArizonaFlare => "ABCArizonaFlareVariable-Trial.ttf",
            Font::UbuntuRegular => "ubuntu-r.ttf",
            Font::UbuntuMedium => "ubuntu-m.ttf",
        }
    }
}

/// What a request for a part of a page is answered with.
#[derive(Debug, PartialEq, Eq)]
pub enum ResponseBody {
    /// A page.
    Page(String),
    /// A font.
    Font(Font),
    /// A few words.
    Words(String),
}

/// What a request for a part of a page is answered with.
pub ghost enum BodyView {
    Page(Seq<char>),
    Font(Font),
    Words(Seq<char>),
}

impl View for ResponseBody {
    type V = BodyView;

    open spec fn view(&self) -> BodyView {
        match self {
            ResponseBody::Page(html) => BodyView::Page(html@),
            ResponseBody::Font(font) => BodyView::Font(*font),
            ResponseBody::Words(words) => BodyView::Words(words@),
        }
    }
}

/// The answer to a request for a part of a page.
#[derive(Debug, PartialEq, Eq)]
pub struct AppResponse {
    /// The status of the answer.
    pub status: u16,
    /// What kind of content it is.
    pub content_type: String,
    /// The content.
    pub body: ResponseBody,
}

/// The answer to a request for a part of a page.
pub ghost struct ResponseView {
    pub status: u16,
    pub content_type: Seq<char>,
    pub body: BodyView,
}

impl View for AppResponse {
    type V = ResponseView;

    open spec fn view(&self) -> ResponseView {
        ResponseView {
            status: self.status,
            content_type: self.content_type@,
            body: self.body@,
        }
    }
}

/// The answer that is a page.
pub open spec fn page_answer(html: Seq<char>) -> ResponseView {
    ResponseView {
        status: 200,
        content_type: "text/html; charset=utf-8"@,
        body: BodyView::Page(html),
    }
}

/// The answer that is a font.
pub open spec fn font_answer(font: Font) -> ResponseView {
    ResponseView { status: 200, content_type: "font/ttf"@, body: BodyView::Font(font) }
}

/// The answer to a request for something that is not there.
pub open spec fn missing_answer() -> ResponseView {
    ResponseView {
        status: 404,
        content_type: "text/plain; charset=utf-8"@,
        body: BodyView::Words("Not Found"@),
    }
}

/// The answer to a request for `path`, where the icon is at `icon_url`.
pub open spec fn answer(path: Seq<char>, icon_url: Seq<char>, version: Seq<char>) -> ResponseView {
    if path == "/overlay.html"@ {
        page_answer(replaced(PAGE_HEAD@ + FONT_FACES@ + OVERLAY_REST@, ICON_MARK@, icon_url))
    } else if path == "/settings.html"@ {
        page_answer(
            replaced(
                replaced(PAGE_HEAD@ + FONT_FACES@ + SETTINGS_REST@, ICON_MARK@, icon_url),
                VERSION_MARK@,
                seq!['v'] + version,
            ),
        )
    } else if path == "/fonts/arizona-sans.ttf"@ {
        font_answer(Font::ArizonaSans)
    } else if path == "/fonts/arizona-flare.ttf"@ {
        font_answer(Font::ArizonaFlare)
    } else if path == "/fonts/ubuntu-r.ttf"@ {
        font_answer(Font::UbuntuRegular)
    } else if path == "/fonts/ubuntu-m.ttf"@ {
        font_answer(Font::UbuntuMedium)
    } else {
        missing_answer()
    }
}

/// The answer that is a page.
fn html_response(html: String) -> (response: AppResponse)
    ensures
        response@ == page_answer(html@),
{
    AppResponse {
        status: 200,
        content_type: "text/html; charset=utf-8".to_owned(),
        body: ResponseBody::Page(html),
    }
}

/// The answer that is a font.
fn asset_response(font: Font) -> (response: AppResponse)
    ensures
        response@ == font_answer(font),
{
    AppResponse {
        status: 200,
        content_type: "font/ttf".to_owned(),
        body: ResponseBody::Font(font),
    }
}

/// The answer to a request for `path`, where `icon` is the icon of the
/// application.
pub fn app_protocol_response(path: &str, icon: &Vec<u8>, version: &str) -> (response: AppResponse)
    requires
        4 * ((icon@.len() + 2) / 3) <= isize::MAX,
    ensures
        response@ == answer(path@, ICON_URL_HEAD@ + base64_text(icon@), version@),
{
    if same_text(path, "/overlay.html") {
        let icon_url: String = app_icon_data_url(icon);
        html_response(overlay_html(icon_url.as_str()))
    } else if same_text(path, "/settings.html") {
        let icon_url: String = app_icon_data_url(icon);
        html_response(settings_html(icon_url.as_str(), version))
    } else if same_text(path, "/fonts/arizona-sans.ttf") {
        asset_response(Font::ArizonaSans)
    } else if same_text(path, "/fonts/arizona-flare.ttf") {
        asset_response(Font::ArizonaFlare)
    } else if same_text(path, "/fonts/ubuntu-r.ttf") {
        asset_response(Font::UbuntuRegular)
    } else if same_text(path, "/fonts/ubuntu-m.ttf") {
        asset_response(Font::UbuntuMedium)
    } else {
        AppResponse {
            status: 404,
            content_type: "text/plain; charset=utf-8".to_owned(),
            body: ResponseBody::Words("Not Found".to_owned()),
        }
    }
}

/// The mail page is looked at no more often than every five seconds, and
/// otherwise as often as asked for.
pub proof fn looks_are_five_seconds_apart(poll_interval_seconds: u64)
    ensures
        schedule_ms(poll_interval_seconds) >= 5000,
        poll_interval_seconds >= 5 ==> schedule_ms(poll_interval_seconds) == poll_interval_seconds
            * 1000,
{
}

/// The script sets the time between two looks as asked for: intervals of five
/// seconds and less give the same script, and different intervals from five
/// seconds on give different scripts.
pub proof fn scripts_tell_intervals_apart(first: u64, second: u64)
    ensures
        contains_text(
            monitor_script(first),
            SCHEDULE_HEAD@ + decimal(schedule_ms(first)) + SCHEDULE_END@,
        ),
        first <= 5 ==> monitor_script(first) == monitor_script(5),
        first >= 5 && second >= 5 && first != second ==> monitor_script(first) != monitor_script(
            second,
        ),
{
    let set = SCHEDULE_HEAD@ + decimal(schedule_ms(first)) + SCHEDULE_END@;
    let start = MONITOR_HEAD@.len() as int;
    let script = monitor_script(first);
    assert(script.subrange(start, start + set.len()) =~= set);
    assert(occurs_at(script, set, start));
    if first >= 5 && second >= 5 && monitor_script(first) == monitor_script(second) {
        let other = monitor_script(second);
        let from = start + SCHEDULE_HEAD@.len();
        let (a, b) = (decimal(schedule_ms(first)), decimal(schedule_ms(second)));
        assert(script.len() == other.len());
        assert(a.len() == b.len());
        assert(a =~= script.subrange(from, from + a.len()));
        assert(b =~= other.subrange(from, from + b.len()));
        decimal_tells_numbers_apart(schedule_ms(first), schedule_ms(second));
    }
}

/// The script looks at the mail page every so many milliseconds as were asked for
/// in seconds, and every five thousand where fewer than five seconds were.
pub proof fn script_sets_the_time_between_looks(poll_interval_seconds: u64)
    ensures
        contains_text(
            monitor_script(poll_interval_seconds),
            "const schedule = "@ + decimal(
                if poll_interval_seconds < 5 {
                    5000
                } else {
                    (poll_interval_seconds * 1000) as nat
                },
            ) + ";"@,
        ),
        MONITOR_HEAD@.is_prefix_of(monitor_script(poll_interval_seconds)),
        MONITOR_TAIL@.is_suffix_of(monitor_script(poll_interval_seconds)),
{
    scripts_tell_intervals_apart(poll_interval_seconds, poll_interval_seconds);
    let script = monitor_script(poll_interval_seconds);
    assert(MONITOR_HEAD@.is_prefix_of(script));
    assert(MONITOR_TAIL@.is_suffix_of(script));
}

/// `response` is found and is a page with these contents.
pub open spec fn is_page(response: ResponseView, html: Seq<char>) -> bool {
    &&& response.status == 200
    &&& response.content_type == "text/html; charset=utf-8"@
    &&& response.body == BodyView::Page(html)
}

/// `response` is found and is this font.
pub open spec fn is_font(response: ResponseView, font: Font) -> bool {
    &&& response.status == 200
    &&& response.content_type == "font/ttf"@
    &&& response.body == BodyView::Font(font)
}

/// Each page and each font is answered under its own path, the pages with the icon
/// in place of its mark and the settings with the version in place of its own;
/// every other path is not found.
pub proof fn paths_are_answered_with_what_they_name(
    path: Seq<char>,
    icon_url: Seq<char>,
    version: Seq<char>,
)
    ensures
        ({
            let response = answer(path, icon_url, version);
            &&& path == "/overlay.html"@ ==> is_page(
                response,
                replaced(PAGE_HEAD@ + FONT_FACES@ + OVERLAY_REST@, "__APP_ICON__"@, icon_url),
            )
            &&& path == "/settings.html"@ ==> is_page(
                response,
                replaced(
                    replaced(PAGE_HEAD@ + FONT_FACES@ + SETTINGS_REST@, "__APP_ICON__"@, icon_url),
                    "__APP_VERSION__"@,
                    seq!['v'] + version,
                ),
            )
            &&& path == "/fonts/arizona-sans.ttf"@ ==> is_font(response, Font::ArizonaSans)
            &&& path == "/fonts/arizona-flare.ttf"@ ==> is_font(response, Font::ArizonaFlare)
            &&& path == "/fonts/ubuntu-r.ttf"@ ==> is_font(response, Font::UbuntuRegular)
            &&& path == "/fonts/ubuntu-m.ttf"@ ==> is_font(response, Font::UbuntuMedium)
            &&& path != "/overlay.html"@ && path != "/settings.html"@ && path
                != "/fonts/arizona-sans.ttf"@ && path != "/fonts/arizona-flare.ttf"@ && path
                != "/fonts/ubuntu-r.ttf"@ && path != "/fonts/ubuntu-m.ttf"@ ==> {
                &&& response.status == 404
                &&& response.content_type == "text/plain; charset=utf-8"@
                &&& response.body == BodyView::Words("Not Found"@)
            }
        }),
{
    reveal_strlit("/overlay.html");
    reveal_strlit("/settings.html");
    reveal_strlit("/fonts/arizona-sans.ttf");
    reveal_strlit("/fonts/arizona-flare.ttf");
    reveal_strlit("/fonts/ubuntu-r.ttf");
    reveal_strlit("/fonts/ubuntu-m.ttf");
    assert("/overlay.html"@.len() == 13 && "/settings.html"@.len() == 14);
    assert("/fonts/arizona-sans.ttf"@.len() == 23 && "/fonts/arizona-flare.ttf"@.len() == 24);
    assert("/fonts/ubuntu-r.ttf"@.len() == 19 && "/fonts/ubuntu-m.ttf"@.len() == 19);
    assert("/fonts/ubuntu-r.ttf"@[14] != "/fonts/ubuntu-m.ttf"@[14]);
}

} // verus!
