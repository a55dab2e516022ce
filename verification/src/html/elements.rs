use vstd::prelude::*;

use super::ToRawHtml;

verus! {

/// The script that sends a click to the server.
pub open spec fn endpoint_script_js() -> Seq<char> {
    r#"	function endpoint(arg) {
		fetch("http://127.0.0.1:3000" + arg);
	}
		"#@
}

/// The script that asks the server every second whether the page must reload.
pub open spec fn refresh_script_js() -> Seq<char> {
    r#"	function refresh() {
		fetch("http://127.0.0.1:3000/refresh").then(
			(x) => x.json()
		).then((y) => {
			if (y == true) {
				window.location.reload(1);
			}
		});
	}

	setInterval(function() {
		refresh();
	}, 1000);
		"#@
}

pub open spec fn button_html(action: Seq<char>, text: Seq<char>) -> Seq<char> {
    "<button onclick=\"endpoint('"@ + action + "')\">"@ + text + "</button>"@
}

#[derive(Clone, Copy)]
pub struct EndpointScript;

impl ToRawHtml for EndpointScript {
    open spec fn raw_html(&self) -> Seq<char> {
        endpoint_script_js()
    }

    fn to_raw_html(&self) -> (r: String) {
        String::from_str(
            r#"	function endpoint(arg) {
		fetch("http://127.0.0.1:3000" + arg);
	}
		"#,
        )
    }
}

#[derive(Clone, Copy)]
pub struct RefreshScript;

impl ToRawHtml for RefreshScript {
    open spec fn raw_html(&self) -> Seq<char> {
        refresh_script_js()
    }

    fn to_raw_html(&self) -> (r: String) {
        String::from_str(
            r#"	function refresh() {
		fetch("http://127.0.0.1:3000/refresh").then(
			(x) => x.json()
		).then((y) => {
			if (y == true) {
				window.location.reload(1);
			}
		});
	}

	setInterval(function() {
		refresh();
	}, 1000);
		"#,
        )
    }
}

/// A button that calls the server's `action` path when clicked.
pub struct Button {
    pub text: String,
    pub action: String,
}

impl Clone for Button {
    fn clone(&self) -> (r: Self)
        ensures
            r == *self,
    {
        Button { text: self.text.clone(), action: self.action.clone() }
    }
}

impl ToRawHtml for Button {
    open spec fn raw_html(&self) -> Seq<char> {
        button_html(self.action@, self.text@)
    }

    fn to_raw_html(&self) -> (r: String) {
        let mut r = String::from_str("<button onclick=\"endpoint('");
        r.append(self.action.as_str());
        r.append("')\">");
        r.append(self.text.as_str());
        r.append("</button>");
        r
    }
}

/// Text written into the page as it stands.
pub struct Paragraph {
    pub text: String,
}

impl Clone for Paragraph {
    fn clone(&self) -> (r: Self)
        ensures
            r == *self,
    {
        Paragraph { text: self.text.clone() }
    }
}

impl ToRawHtml for Paragraph {
    open spec fn raw_html(&self) -> Seq<char> {
        self.text@
    }

    fn to_raw_html(&self) -> (r: String) {
        self.text.clone()
    }
}

} // verus!
