//! The observer script: the text that the login window runs before any
//! script of the page. It watches the page's own requests and a polling
//! endpoint for a token and reports the first one through the signal channel.

use vstd::prelude::*;
use vstd::string::StringExecFns;
use crate::signal::sentinel_prefix;

verus! {

/// The script up to the signal address: the one-shot guard and the sender.
pub const SCRIPT_GUARD: &'static str = r#"
(function() {
  var hasSent = false;
  function sendToken(token) {
    if (hasSent || !token) return;
    hasSent = true;
    window.location.replace(""#;

/// From the signal address to the first mention of the match pattern: the
/// wrapper around the page's request primitive.
pub const SCRIPT_REQUESTS: &'static str = r#"" + token);
  }

  var nativeOpen = XMLHttpRequest.prototype.open;
  var nativeSend = XMLHttpRequest.prototype.send;
  XMLHttpRequest.prototype.open = function(method, url) {
    this._url = url;
    return nativeOpen.apply(this, arguments);
  };
  XMLHttpRequest.prototype.send = function(body) {
    this.addEventListener('load', function() {
      try {
        if (this._url && this._url.includes('"#;

/// Between the two mentions of the match pattern: the end of the request
/// wrapper and the wrapper around the page's fetch primitive.
pub const SCRIPT_FETCH: &'static str = r#"')) {
          var res = JSON.parse(this.responseText);
          if (res.status === 0 && res.data && res.data.token) {
            sendToken(res.data.token);
          }
        }
      } catch (e) { }
    });
    return nativeSend.apply(this, arguments);
  };

  var nativeFetch = window.fetch;
  window.fetch = async function(...args) {
    const response = await nativeFetch(...args);
    try {
      const url = response.url;
      if (url && url.includes('"#;

/// From the second mention of the match pattern to the polling address.
pub const SCRIPT_POLL: &'static str = r#"')) {
        const clone = response.clone();
        clone.json().then(data => {
          if (data.status === 0 && data.data && data.data.token) {
            sendToken(data.data.token);
          }
        }).catch(e => {});
      }
    } catch (e) {}
    return response;
  };

  var timer = setInterval(function() {
    if (hasSent) { clearInterval(timer); return; }
    fetch(""#;

/// After the polling address: the credentialed request and its interval.
pub const SCRIPT_END: &'static str = r#"", {
      method: "GET",
      credentials: "include"
    })
    .then(res => res.json())
    .then(data => {
      if (data.code === 0 && data.data && data.data.content) {
        sendToken(data.data.content);
        clearInterval(timer);
      }
    })
    .catch(e => {});
  }, 1500);
})();
"#;

/// The observer script for a provider: the fixed text with the signal
/// address in its sender, the match pattern in both request wrappers and the
/// polling address in the fallback.
pub open spec fn observer_script(auth_match: Seq<char>, poll_url: Seq<char>) -> Seq<char> {
    SCRIPT_GUARD@ + sentinel_prefix() + "?token="@ + SCRIPT_REQUESTS@ + auth_match + SCRIPT_FETCH@
        + auth_match + SCRIPT_POLL@ + poll_url + SCRIPT_END@
}

/// Renders the observer script for a match pattern and a polling address.
pub fn render_observer_script(auth_match: &str, poll_url: &str) -> (script: String)
    ensures
        script@ == observer_script(auth_match@, poll_url@),
{
    let mut script: String = String::from_str(SCRIPT_GUARD);
    script.append("sentinel://login_success");
    script.append("?token=");
    script.append(SCRIPT_REQUESTS);
    script.append(auth_match);
    script.append(SCRIPT_FETCH);
    script.append(auth_match);
    script.append(SCRIPT_POLL);
    script.append(poll_url);
    script.append(SCRIPT_END);
    script
}

} // verus!
