//! The endpoints of the embedded server that work by a script: for each, the script
//! that does the work in the web view and the shape of the answer.

use vstd::prelude::*;
use crate::json::{entries_view, no_entries, put, Json, JsonValue};
use crate::outside::{fresh_id, json_quote, quoted};
use crate::frames::FrameRefView;
use crate::script::{
    rendered, wrapped, wrapped_script, Evaluation, EvaluationView, Reply, ReplyView, ScriptKind,
};
use crate::text::{decimal, decimal_digits, same_text, views};

verus! {

/// A reference to an element as the embedded server receives it. No strategy means
/// a CSS selector.
#[derive(Debug)]
pub struct ElemReq {
    pub selector: String,
    pub index: u64,
    pub using: Option<String>,
}

/// What an `ElemReq` stands for.
pub ghost struct ElemReqView {
    pub selector: Seq<char>,
    pub index: u64,
    pub using: Option<Seq<char>>,
}

impl View for ElemReq {
    type V = ElemReqView;

    open spec fn view(&self) -> ElemReqView {
        ElemReqView {
            selector: self.selector@,
            index: self.index,
            using: match self.using {
                Some(u) => Some(u@),
                None => None,
            },
        }
    }
}

/// A file to put into a file input: its name, its content in base64 and its MIME
/// type.
#[derive(Debug)]
pub struct FileInfo {
    pub name: String,
    pub data: String,
    pub mime: String,
}

/// What a `FileInfo` stands for.
pub ghost struct FileInfoView {
    pub name: Seq<char>,
    pub data: Seq<char>,
    pub mime: Seq<char>,
}

impl View for FileInfo {
    type V = FileInfoView;

    open spec fn view(&self) -> FileInfoView {
        FileInfoView { name: self.name@, data: self.data@, mime: self.mime@ }
    }
}

/// A cookie to put into the simulated jar.
#[derive(Debug)]
pub struct CookieData {
    pub name: String,
    pub value: String,
    pub path: String,
    pub domain: Option<String>,
    pub secure: bool,
    pub http_only: bool,
    pub expiry: Option<u64>,
}

/// What a `CookieData` stands for.
pub ghost struct CookieDataView {
    pub name: Seq<char>,
    pub value: Seq<char>,
    pub path: Seq<char>,
    pub domain: Option<Seq<char>>,
    pub secure: bool,
    pub http_only: bool,
    pub expiry: Option<u64>,
}

impl View for CookieData {
    type V = CookieDataView;

    open spec fn view(&self) -> CookieDataView {
        CookieDataView {
            name: self.name@,
            value: self.value@,
            path: self.path@,
            domain: match self.domain {
                Some(d) => Some(d@),
                None => None,
            },
            secure: self.secure,
            http_only: self.http_only,
            expiry: self.expiry,
        }
    }
}

/// The views of the files of `files`, in their order.
pub open spec fn file_views(files: Seq<FileInfo>) -> Seq<FileInfoView> {
    Seq::new(files.len(), |i: int| files[i]@)
}

/// The path of a cookie that names none.
pub fn default_path() -> (path: String)
    ensures
        path@ == "/"@,
{
    String::from_str("/")
}

/// The MIME type of a file that names none.
pub fn default_mime() -> (mime: String)
    ensures
        mime@ == "application/octet-stream"@,
{
    String::from_str("application/octet-stream")
}

/// Whether `using` names the strategy `name`.
pub open spec fn uses(using: Option<Seq<char>>, name: Seq<char>) -> bool {
    using == Some(name)
}

/// Whether `using` names the strategy `name`.
pub fn is_using(using: &Option<String>, name: &str) -> (r: bool)
    ensures
        r == uses(
            match using {
                Some(u) => Some(u@),
                None => None,
            },
            name@,
        ),
{
    match using {
        Some(u) => same_text(u.as_str(), name),
        None => false,
    }
}

/// The evaluation of the function body `body`, answered as `reply` says.
pub fn wrapped_evaluation(body: String, reply: Reply) -> (e: Evaluation)
    ensures
        e@ == wrapped(body@, reply@),
{
    let ghost text = body@;
    let mut pieces: Vec<String> = Vec::new();
    pieces.push(body);
    assert(views(pieces@) =~= seq![text]);
    Evaluation { kind: ScriptKind::Wrapped, pieces, reply }
}

/// The answer with the result as the member `key`.
pub fn member(key: &str) -> (reply: Reply)
    ensures
        reply@ == ReplyView::Member(key@),
{
    Reply::Member(String::from_str(key))
}


/// The statements that leave the element `target` in `el`, or throw where there is
/// none. An element found in a shadow tree is looked up in the bridge's cache by its
/// selector; one found by XPath is that expression's match at its position; any other
/// is the match of the CSS selector at its position.
pub open spec fn element_lookup(target: ElemReqView) -> Seq<char> {
    if uses(target.using, "shadow"@) {
        "var el=window.__WEBDRIVER__.findElementInShadow("@ + quoted(target.selector) + ");if(!el)throw new Error(\"shadow element not found or stale\");"@
    } else if uses(target.using, "xpath"@) {
        "var __xr=document.evaluate("@ + quoted(target.selector) + ",document,null,XPathResult.ORDERED_NODE_SNAPSHOT_TYPE,null);var el=__xr.snapshotItem("@ + decimal_digits(target.index as nat) + ");if(!el)throw new Error(\"element not found\");"@
    } else {
        "var el=document.querySelectorAll("@ + quoted(target.selector) + ")["@ + decimal_digits(target.index as nat) + "];if(!el)throw new Error(\"element not found\");"@
    }
}

/// The function body that finds the element `target` and goes on with `body`.
pub open spec fn element_script(target: ElemReqView, body: Seq<char>) -> Seq<char> {
    element_lookup(target) + body
}

/// The evaluation that finds the element `target` and goes on with `body`.
pub fn eval_on_element(target: &ElemReq, body: &str, reply: Reply) -> (e: Evaluation)
    ensures
        e@ == wrapped(element_script(target@, body@), reply@),
{
    if is_using(&target.using, "shadow") {
        let mut js = String::from_str("var el=window.__WEBDRIVER__.findElementInShadow(");
        js.append(json_quote(target.selector.as_str()).as_str());
        js.append(");if(!el)throw new Error(\"shadow element not found or stale\");");
        js.append(body);
        wrapped_evaluation(js, reply)
    } else if is_using(&target.using, "xpath") {
        let mut js = String::from_str("var __xr=document.evaluate(");
        js.append(json_quote(target.selector.as_str()).as_str());
        js.append(",document,null,XPathResult.ORDERED_NODE_SNAPSHOT_TYPE,null);var el=__xr.snapshotItem(");
        js.append(decimal(target.index).as_str());
        js.append(");if(!el)throw new Error(\"element not found\");");
        js.append(body);
        wrapped_evaluation(js, reply)
    } else {
        let mut js = String::from_str("var el=document.querySelectorAll(");
        js.append(json_quote(target.selector.as_str()).as_str());
        js.append(")[");
        js.append(decimal(target.index).as_str());
        js.append("];if(!el)throw new Error(\"element not found\");");
        js.append(body);
        wrapped_evaluation(js, reply)
    }
}


/// The text of an element.
pub const ELEMENT_TEXT: &'static str = "return el.textContent||''";

/// The text of an element.
pub fn element_text(target: &ElemReq) -> (e: Evaluation)
    ensures
        e@ == wrapped(element_script(target@, ELEMENT_TEXT@), ReplyView::Member("text"@)),
{
    eval_on_element(target, ELEMENT_TEXT, member("text"))
}


/// The tag name of an element, in lower case.
pub const ELEMENT_TAG: &'static str = "return el.tagName.toLowerCase()";

/// The tag name of an element, in lower case.
pub fn element_tag(target: &ElemReq) -> (e: Evaluation)
    ensures
        e@ == wrapped(element_script(target@, ELEMENT_TAG@), ReplyView::Member("tag"@)),
{
    eval_on_element(target, ELEMENT_TAG, member("tag"))
}


/// The rectangle of an element in the viewport.
pub const ELEMENT_RECT: &'static str = "var r=el.getBoundingClientRect();return{x:r.x,y:r.y,width:r.width,height:r.height}";

/// The rectangle of an element in the viewport.
pub fn element_rect(target: &ElemReq) -> (e: Evaluation)
    ensures
        e@ == wrapped(element_script(target@, ELEMENT_RECT@), ReplyView::Bare),
{
    eval_on_element(target, ELEMENT_RECT, Reply::Bare)
}


/// Scrolls an element into the centre of the view, gives it the focus and clicks it.
pub const ELEMENT_CLICK: &'static str = "el.scrollIntoView({block:'center',inline:'center'});el.focus();el.click();return null";

/// Scrolls an element into the centre of the view, gives it the focus and clicks it.
pub fn element_click(target: &ElemReq) -> (e: Evaluation)
    ensures
        e@ == wrapped(element_script(target@, ELEMENT_CLICK@), ReplyView::Null),
{
    eval_on_element(target, ELEMENT_CLICK, Reply::Null)
}


/// Empties the value of an element and tells the page so.
pub const ELEMENT_CLEAR: &'static str = "el.focus();el.value='';el.dispatchEvent(new Event('input',{bubbles:true}));el.dispatchEvent(new Event('change',{bubbles:true}));return null";

/// Empties the value of an element and tells the page so.
pub fn element_clear(target: &ElemReq) -> (e: Evaluation)
    ensures
        e@ == wrapped(element_script(target@, ELEMENT_CLEAR@), ReplyView::Null),
{
    eval_on_element(target, ELEMENT_CLEAR, Reply::Null)
}


/// Whether an element is shown: not removed from the layout, not hidden, not fully transparent.
pub const ELEMENT_DISPLAYED: &'static str = "var s=window.getComputedStyle(el);return s.display!=='none'&&s.visibility!=='hidden'&&s.opacity!=='0'";

/// Whether an element is shown: not removed from the layout, not hidden, not fully transparent.
pub fn element_displayed(target: &ElemReq) -> (e: Evaluation)
    ensures
        e@ == wrapped(element_script(target@, ELEMENT_DISPLAYED@), ReplyView::Member("displayed"@)),
{
    eval_on_element(target, ELEMENT_DISPLAYED, member("displayed"))
}


/// Whether an element is enabled.
pub const ELEMENT_ENABLED: &'static str = "return !el.disabled";

/// Whether an element is enabled.
pub fn element_enabled(target: &ElemReq) -> (e: Evaluation)
    ensures
        e@ == wrapped(element_script(target@, ELEMENT_ENABLED@), ReplyView::Member("enabled"@)),
{
    eval_on_element(target, ELEMENT_ENABLED, member("enabled"))
}


/// Whether an element is selected or checked.
pub const ELEMENT_SELECTED: &'static str = "return el.selected||el.checked||false";

/// Whether an element is selected or checked.
pub fn element_selected(target: &ElemReq) -> (e: Evaluation)
    ensures
        e@ == wrapped(element_script(target@, ELEMENT_SELECTED@), ReplyView::Member("selected"@)),
{
    eval_on_element(target, ELEMENT_SELECTED, member("selected"))
}


/// Whether an element has a shadow root.
pub const ELEMENT_SHADOW: &'static str = "return el.shadowRoot !== null";

/// Whether an element has a shadow root.
pub fn element_shadow(target: &ElemReq) -> (e: Evaluation)
    ensures
        e@ == wrapped(element_script(target@, ELEMENT_SHADOW@), ReplyView::Member("hasShadow"@)),
{
    eval_on_element(target, ELEMENT_SHADOW, member("hasShadow"))
}


/// The ARIA role of an element: the role it names, else the role of an `input` by its type, else that of its tag, else `generic`.
pub const ELEMENT_ROLE: &'static str = "var tag=el.tagName.toLowerCase();\nvar role=el.getAttribute('role');\nif(role)return role;\nvar map={button:'button',a:'link',h1:'heading',h2:'heading',h3:'heading',h4:'heading',h5:'heading',h6:'heading',\ninput:'textbox',textarea:'textbox',select:'combobox',option:'option',ul:'list',ol:'list',li:'listitem',\ntable:'table',tr:'row',td:'cell',th:'columnheader',img:'img',nav:'navigation',main:'main',header:'banner',\nfooter:'contentinfo',aside:'complementary',form:'form',details:'group',summary:'button',dialog:'dialog',\nprogress:'progressbar',meter:'meter'};\nif(tag==='input'){var t=(el.getAttribute('type')||'text').toLowerCase();\nif(t==='checkbox')return 'checkbox';if(t==='radio')return 'radio';\nif(t==='range')return 'slider';if(t==='number')return 'spinbutton';\nif(t==='search')return 'searchbox';return 'textbox'}\nif(tag==='a'&&el.hasAttribute('href'))return 'link';\nreturn map[tag]||'generic'";

/// The ARIA role of an element: the role it names, else the role of an `input` by its type, else that of its tag, else `generic`.
pub fn element_computed_role(target: &ElemReq) -> (e: Evaluation)
    ensures
        e@ == wrapped(element_script(target@, ELEMENT_ROLE@), ReplyView::Member("role"@)),
{
    eval_on_element(target, ELEMENT_ROLE, member("role"))
}


/// The accessible name of an element: from the elements that label it, its own label, its `label` element, its placeholder, its alternative text or its title, in this order.
pub const ELEMENT_LABEL: &'static str = "var lblBy=el.getAttribute('aria-labelledby');\nif(lblBy){var ids=lblBy.split(/\\s+/);var parts=[];\nfor(var i=0;i<ids.length;i++){var e=document.getElementById(ids[i]);if(e)parts.push(e.textContent.trim())}\nif(parts.length)return parts.join(' ')}\nvar lbl=el.getAttribute('aria-label');if(lbl)return lbl;\nif(el.id){var labels=document.querySelectorAll('label[for=\"'+el.id+'\"]');\nif(labels.length)return labels[0].textContent.trim()}\nif(el.placeholder)return el.placeholder;\nif(el.alt)return el.alt;\nif(el.title)return el.title;\nreturn ''";

/// The accessible name of an element: from the elements that label it, its own label, its `label` element, its placeholder, its alternative text or its title, in this order.
pub fn element_computed_label(target: &ElemReq) -> (e: Evaluation)
    ensures
        e@ == wrapped(element_script(target@, ELEMENT_LABEL@), ReplyView::Member("label"@)),
{
    eval_on_element(target, ELEMENT_LABEL, member("label"))
}


/// The function body that reads the attribute `name` of `el`.
pub open spec fn attribute_body(name: Seq<char>) -> Seq<char> {
    "return el.getAttribute("@ + quoted(name) + ")"@
}

/// The value of the attribute `name` of an element.
pub fn element_attribute(target: &ElemReq, name: &str) -> (e: Evaluation)
    ensures
        e@ == wrapped(element_script(target@, attribute_body(name@)), ReplyView::Member("value"@)),
{
    let mut js = String::from_str("return el.getAttribute(");
    js.append(json_quote(name).as_str());
    js.append(")");
    eval_on_element(target, js.as_str(), member("value"))
}

/// The function body that reads the property `name` of `el`.
pub open spec fn property_body(name: Seq<char>) -> Seq<char> {
    "return el["@ + quoted(name) + "]"@
}

/// The value of the property `name` of an element.
pub fn element_property(target: &ElemReq, name: &str) -> (e: Evaluation)
    ensures
        e@ == wrapped(element_script(target@, property_body(name@)), ReplyView::Member("value"@)),
{
    let mut js = String::from_str("return el[");
    js.append(json_quote(name).as_str());
    js.append("]");
    eval_on_element(target, js.as_str(), member("value"))
}


/// The function body that adds `text` to the value of `el` and tells the page so.
pub open spec fn send_keys_body(text: Seq<char>) -> Seq<char> {
    "el.focus();el.value+="@ + quoted(text) + ";el.dispatchEvent(new Event('input',{bubbles:true}));el.dispatchEvent(new Event('change',{bubbles:true}));return null"@
}

/// Adds `text` to the value of an element.
pub fn element_send_keys(target: &ElemReq, text: &str) -> (e: Evaluation)
    ensures
        e@ == wrapped(element_script(target@, send_keys_body(text@)), ReplyView::Null),
{
    let mut js = String::from_str("el.focus();el.value+=");
    js.append(json_quote(text).as_str());
    js.append(";el.dispatchEvent(new Event('input',{bubbles:true}));el.dispatchEvent(new Event('change',{bubbles:true}));return null");
    eval_on_element(target, js.as_str(), Reply::Null)
}


/// The object literal of one file.
pub open spec fn file_literal(f: FileInfoView) -> Seq<char> {
    "{\"name\":"@ + quoted(f.name) + ",\"data\":"@ + quoted(f.data) + ",\"mime\":"@ + quoted(f.mime) + "}"@
}

/// The object literals of `files`, with a comma between each two.
pub open spec fn file_literals(files: Seq<FileInfoView>) -> Seq<char>
    decreases files.len(),
{
    if files.len() == 0 {
        Seq::empty()
    } else if files.len() == 1 {
        file_literal(files[0])
    } else {
        file_literals(files.drop_last()) + ","@ + file_literal(files.last())
    }
}

/// The function body that makes `files` the files of the file input `el`, in their
/// order, and tells the page so. It throws where `el` is no file input.
pub open spec fn set_files_body(files: Seq<FileInfoView>) -> Seq<char> {
    "if(el.tagName!=='INPUT'||el.type!=='file')throw new Error('element is not a file input');var _files="@ + "["@ + file_literals(files) + "]"@ + ";var dt=new DataTransfer();for(var i=0;i<_files.length;i++){var raw=atob(_files[i].data);var bytes=new Uint8Array(raw.length);for(var j=0;j<raw.length;j++)bytes[j]=raw.charCodeAt(j);dt.items.add(new File([bytes],_files[i].name,{type:_files[i].mime}));}el.files=dt.files;el.dispatchEvent(new Event('input',{bubbles:true}));el.dispatchEvent(new Event('change',{bubbles:true}));return null"@
}

/// Makes `files` the files of a file input.
pub fn element_set_files(target: &ElemReq, files: &Vec<FileInfo>) -> (e: Evaluation)
    ensures
        e@ == wrapped(element_script(target@, set_files_body(file_views(files@))), ReplyView::Null),
{
    let mut js = String::from_str("if(el.tagName!=='INPUT'||el.type!=='file')throw new Error('element is not a file input');var _files=");
    js.append("[");
    let ghost head = js@;
    let ghost all = file_views(files@);
    let mut i: usize = 0;
    assert(all.take(0) =~= Seq::<FileInfoView>::empty());
    assert(js@ =~= head + file_literals(all.take(0)));
    while i < files.len()
        invariant
            i <= files.len(),
            all == file_views(files@),
            js@ == head + file_literals(all.take(i as int)),
        decreases files.len() - i,
    {
        let f = &files[i];
        let ghost before = js@;
        if i > 0 {
            js.append(",");
        }
        let ghost mid = js@;
        js.append("{\"name\":");
        js.append(json_quote(f.name.as_str()).as_str());
        js.append(",\"data\":");
        js.append(json_quote(f.data.as_str()).as_str());
        js.append(",\"mime\":");
        js.append(json_quote(f.mime.as_str()).as_str());
        js.append("}");
        proof {
            let longer = all.take(i + 1);
            assert(longer.drop_last() =~= all.take(i as int));
            assert(longer.last() == f@);
            assert(js@ =~= mid + file_literal(f@));
            if i == 0 {
                assert(longer[0] == f@);
                assert(file_literals(all.take(0)) =~= Seq::<char>::empty());
                assert(js@ =~= head + file_literals(longer));
            } else {
                assert(js@ =~= head + file_literals(longer));
            }
        }
        i += 1;
    }
    assert(all.take(i as int) =~= all);
    js.append("]");
    js.append(";var dt=new DataTransfer();for(var i=0;i<_files.length;i++){var raw=atob(_files[i].data);var bytes=new Uint8Array(raw.length);for(var j=0;j<raw.length;j++)bytes[j]=raw.charCodeAt(j);dt.items.add(new File([bytes],_files[i].name,{type:_files[i].mime}));}el.files=dt.files;el.dispatchEvent(new Event('input',{bubbles:true}));el.dispatchEvent(new Event('change',{bubbles:true}));return null");
    eval_on_element(target, js.as_str(), Reply::Null)
}


/// The function body that lists a reference for each match of `value` in the
/// document: of the XPath expression where `using` is `xpath`, of the CSS selector
/// otherwise.
pub open spec fn find_body(using: Seq<char>, value: Seq<char>) -> Seq<char> {
    if using == "xpath"@ {
        "var r=document.evaluate("@ + quoted(value) + ",document,null,XPathResult.ORDERED_NODE_SNAPSHOT_TYPE,null);var a=[];for(var i=0;i<r.snapshotLength;i++)a.push({selector:"@ + quoted(value) + ",index:i,using:\"xpath\"});return a"@
    } else {
        "var els=document.querySelectorAll("@ + quoted(value) + ");var a=[];for(var i=0;i<els.length;i++)a.push({selector:"@ + quoted(value) + ",index:i});return a"@
    }
}

/// Lists a reference for each match of `value` in the document.
pub fn element_find(using: &str, value: &str) -> (e: Evaluation)
    ensures
        e@ == wrapped(find_body(using@, value@), ReplyView::Member("elements"@)),
{
    if same_text(using, "xpath") {
        let mut js = String::from_str("var r=document.evaluate(");
        js.append(json_quote(value).as_str());
        js.append(",document,null,XPathResult.ORDERED_NODE_SNAPSHOT_TYPE,null);var a=[];for(var i=0;i<r.snapshotLength;i++)a.push({selector:");
        js.append(json_quote(value).as_str());
        js.append(",index:i,using:\"xpath\"});return a");
        wrapped_evaluation(js, member("elements"))
    } else {
        let mut js = String::from_str("var els=document.querySelectorAll(");
        js.append(json_quote(value).as_str());
        js.append(");var a=[];for(var i=0;i<els.length;i++)a.push({selector:");
        js.append(json_quote(value).as_str());
        js.append(",index:i});return a");
        wrapped_evaluation(js, member("elements"))
    }
}


/// The statements that leave the element `parent` in `parent`, or throw where there
/// is none.
pub open spec fn parent_lookup(parent: ElemReqView) -> Seq<char> {
    if uses(parent.using, "xpath"@) {
        "var __xr=document.evaluate("@ + quoted(parent.selector) + ",document,null,XPathResult.ORDERED_NODE_SNAPSHOT_TYPE,null);var parent=__xr.snapshotItem("@ + decimal_digits(parent.index as nat) + ");if(!parent)throw new Error('parent element not found');"@
    } else {
        "var parent=document.querySelectorAll("@ + quoted(parent.selector) + ")["@ + decimal_digits(parent.index as nat) + "];if(!parent)throw new Error('parent element not found');"@
    }
}

/// The statements that tag each match of `value` below `parent` with an attribute
/// that holds the next number of a counter, and list for each a selector of that
/// attribute, which finds the match again from the top of the document.
pub open spec fn children_listing(using: Seq<char>, value: Seq<char>) -> Seq<char> {
    if using == "xpath"@ {
        "var r=document.evaluate("@ + quoted(value) + ",parent,null,XPathResult.ORDERED_NODE_SNAPSHOT_TYPE,null);var a=[];for(var i=0;i<r.snapshotLength;i++){var e=r.snapshotItem(i);var id='wd-'+(++window.__wdFindFromCtr);e.setAttribute('data-wd-id',id);a.push({selector:'[data-wd-id=\"'+id+'\"]',index:0})}return a"@
    } else {
        "var els=parent.querySelectorAll("@ + quoted(value) + ");var a=[];for(var i=0;i<els.length;i++){var id='wd-'+(++window.__wdFindFromCtr);els[i].setAttribute('data-wd-id',id);a.push({selector:'[data-wd-id=\"'+id+'\"]',index:0})}return a"@
    }
}

/// The function body that lists a reference for each match of `value` below the
/// element `parent`.
pub open spec fn find_from_body(parent: ElemReqView, using: Seq<char>, value: Seq<char>) -> Seq<
    char,
> {
    "if(!window.__wdFindFromCtr)window.__wdFindFromCtr=0;"@ + parent_lookup(parent) + children_listing(using, value)
}

/// Lists a reference for each match of `value` below the element `parent`.
pub fn element_find_from(parent: &ElemReq, using: &str, value: &str) -> (e: Evaluation)
    ensures
        e@ == wrapped(find_from_body(parent@, using@, value@), ReplyView::Member("elements"@)),
{
    let mut js = String::from_str("if(!window.__wdFindFromCtr)window.__wdFindFromCtr=0;");
    let ghost head = js@;
    if is_using(&parent.using, "xpath") {
        js.append("var __xr=document.evaluate(");
        js.append(json_quote(parent.selector.as_str()).as_str());
        js.append(",document,null,XPathResult.ORDERED_NODE_SNAPSHOT_TYPE,null);var parent=__xr.snapshotItem(");
        js.append(decimal(parent.index).as_str());
        js.append(");if(!parent)throw new Error('parent element not found');");
    } else {
        js.append("var parent=document.querySelectorAll(");
        js.append(json_quote(parent.selector.as_str()).as_str());
        js.append(")[");
        js.append(decimal(parent.index).as_str());
        js.append("];if(!parent)throw new Error('parent element not found');");
    }
    assert(js@ =~= head + parent_lookup(parent@));
    let ghost mid = js@;
    if same_text(using, "xpath") {
        js.append("var r=document.evaluate(");
        js.append(json_quote(value).as_str());
        js.append(",parent,null,XPathResult.ORDERED_NODE_SNAPSHOT_TYPE,null);var a=[];for(var i=0;i<r.snapshotLength;i++){var e=r.snapshotItem(i);var id='wd-'+(++window.__wdFindFromCtr);e.setAttribute('data-wd-id',id);a.push({selector:'[data-wd-id=\"'+id+'\"]',index:0})}return a");
    } else {
        js.append("var els=parent.querySelectorAll(");
        js.append(json_quote(value).as_str());
        js.append(");var a=[];for(var i=0;i<els.length;i++){var id='wd-'+(++window.__wdFindFromCtr);els[i].setAttribute('data-wd-id',id);a.push({selector:'[data-wd-id=\"'+id+'\"]',index:0})}return a");
    }
    assert(js@ =~= mid + children_listing(using@, value@));
    wrapped_evaluation(js, member("elements"))
}


/// The bridge's function that finds an element of the top-level document by the
/// strategy `using`.
pub open spec fn finder(using: Option<Seq<char>>) -> Seq<char> {
    if uses(using, "xpath"@) {
        "findElementByXPath"@
    } else {
        "findElement"@
    }
}

/// The bridge's function that finds an element of the top-level document by the
/// strategy `using`.
pub fn finder_of(using: &Option<String>) -> (name: &'static str)
    ensures
        name@ == finder(
            match using {
                Some(u) => Some(u@),
                None => None,
            },
        ),
{
    if is_using(using, "xpath") {
        "findElementByXPath"
    } else {
        "findElement"
    }
}

/// The function body that puts each match of the CSS selector `value` in the shadow
/// tree of `host` into the bridge's cache, under the next number of a counter, and
/// lists a reference to each.
pub open spec fn shadow_find_body(host: ElemReqView, value: Seq<char>) -> Seq<char> {
    "if(!window.__wdShadowCtr)window.__wdShadowCtr=0;var host=window.__WEBDRIVER__."@ + finder(host.using) + "("@ + quoted(host.selector) + ","@ + decimal_digits(host.index as nat) + ");if(!host)throw new Error('host element not found');var sr=host.shadowRoot;if(!sr)throw new Error('no shadow root');var els=sr.querySelectorAll("@ + quoted(value) + ");var a=[];for(var i=0;i<els.length;i++){var id='wds-'+(++window.__wdShadowCtr);window.__WEBDRIVER__.__shadowCache[id]=els[i];a.push({selector:id,index:0,using:'shadow'})}return a"@
}

/// Lists a reference for each match of `value` in the shadow tree of `host`.
pub fn shadow_find(host: &ElemReq, value: &str) -> (e: Evaluation)
    ensures
        e@ == wrapped(shadow_find_body(host@, value@), ReplyView::Member("elements"@)),
{
    let mut js = String::from_str("if(!window.__wdShadowCtr)window.__wdShadowCtr=0;var host=window.__WEBDRIVER__.");
    js.append(finder_of(&host.using));
    js.append("(");
    js.append(json_quote(host.selector.as_str()).as_str());
    js.append(",");
    js.append(decimal(host.index).as_str());
    js.append(");if(!host)throw new Error('host element not found');var sr=host.shadowRoot;if(!sr)throw new Error('no shadow root');var els=sr.querySelectorAll(");
    js.append(json_quote(value).as_str());
    js.append(");var a=[];for(var i=0;i<els.length;i++){var id='wds-'+(++window.__wdShadowCtr);window.__WEBDRIVER__.__shadowCache[id]=els[i];a.push({selector:id,index:0,using:'shadow'})}return a");
    wrapped_evaluation(js, member("elements"))
}


/// The function body that calls the function of body `script` with the arguments
/// `args`, the text of a JSON array, and returns what it returns.
pub open spec fn execute_body(script: Seq<char>, args: Seq<char>) -> Seq<char> {
    "var __args="@ + args + ";return (function(){"@ + script + "}).apply(null,__args)"@
}

/// Runs a script of the user with `args`, the text of a JSON array, as its
/// arguments.
pub fn script_execute(script: &str, args: &str) -> (e: Evaluation)
    ensures
        e@ == wrapped(execute_body(script@, args@), ReplyView::Member("value"@)),
{
    let mut js = String::from_str("var __args=");
    js.append(args);
    js.append(";return (function(){");
    js.append(script);
    js.append("}).apply(null,__args)");
    wrapped_evaluation(js, member("value"))
}


/// The pieces of the script that calls the function of body `script` with the
/// arguments `args` and one more, a function that reports its argument as the
/// result. An error that the call throws is reported in its place.
pub open spec fn execute_async_pieces(script: Seq<char>, args: Seq<char>) -> Seq<Seq<char>> {
    seq![
        "(function(){var __args="@ + args + ";var __done=function(r){window.__WEBDRIVER__.resolve(\""@,
        "\",r)};__args.push(__done);try{(function(){"@ + script + "}).apply(null,__args)}catch(__e){window.__WEBDRIVER__.resolve(\""@,
        "\",{error:__e.name,message:__e.message,stacktrace:__e.stack||\"\"})}})();"@,
    ]
}

/// Runs a script of the user that reports its result by a call of its last
/// argument.
pub fn script_execute_async(script: &str, args: &str) -> (e: Evaluation)
    ensures
        e@ == (EvaluationView {
            kind: ScriptKind::Async,
            pieces: execute_async_pieces(script@, args@),
            reply: ReplyView::Member("value"@),
        }),
{
    let mut first = String::from_str("(function(){var __args=");
    first.append(args);
    first.append(";var __done=function(r){window.__WEBDRIVER__.resolve(\"");
    let mut second = String::from_str("\",r)};__args.push(__done);try{(function(){");
    second.append(script);
    second.append("}).apply(null,__args)}catch(__e){window.__WEBDRIVER__.resolve(\"");
    let third = String::from_str("\",{error:__e.name,message:__e.message,stacktrace:__e.stack||\"\"})}})();");
    let mut pieces: Vec<String> = Vec::new();
    pieces.push(first);
    pieces.push(second);
    pieces.push(third);
    assert(views(pieces@) =~= execute_async_pieces(script@, args@));
    Evaluation { kind: ScriptKind::Async, pieces, reply: member("value") }
}


/// The function body that sends the window to `url`.
pub open spec fn navigate_body(url: Seq<char>) -> Seq<char> {
    "window.location.href="@ + quoted(url) + ";return null"@
}

/// Sends the window to `url`.
pub fn navigate_url(url: &str) -> (e: Evaluation)
    ensures
        e@ == wrapped(navigate_body(url@), ReplyView::Null),
{
    let mut js = String::from_str("window.location.href=");
    js.append(json_quote(url).as_str());
    js.append(";return null");
    wrapped_evaluation(js, Reply::Null)
}


/// The address of the top-level document, whatever frame the context is in: the script reads it from the window, which no frame shadows.
pub const CURRENT_URL: &'static str = "return window.location.href";

/// The address of the top-level document, whatever frame the context is in: the script reads it from the window, which no frame shadows.
pub fn navigate_current() -> (e: Evaluation)
    ensures
        e@ == wrapped(CURRENT_URL@, ReplyView::Member("url"@)),
{
    wrapped_evaluation(String::from_str(CURRENT_URL), member("url"))
}


/// The title of the top-level document, whatever frame the context is in: the script reads it from the window's document, which no frame shadows.
pub const CURRENT_TITLE: &'static str = "return window.document.title";

/// The title of the top-level document, whatever frame the context is in: the script reads it from the window's document, which no frame shadows.
pub fn navigate_title() -> (e: Evaluation)
    ensures
        e@ == wrapped(CURRENT_TITLE@, ReplyView::Member("title"@)),
{
    wrapped_evaluation(String::from_str(CURRENT_TITLE), member("title"))
}


/// Goes one step back in the history.
pub const HISTORY_BACK: &'static str = "window.history.back();return null";

/// Goes one step back in the history.
pub fn navigate_back() -> (e: Evaluation)
    ensures
        e@ == wrapped(HISTORY_BACK@, ReplyView::Null),
{
    wrapped_evaluation(String::from_str(HISTORY_BACK), Reply::Null)
}


/// Goes one step forward in the history.
pub const HISTORY_FORWARD: &'static str = "window.history.forward();return null";

/// Goes one step forward in the history.
pub fn navigate_forward() -> (e: Evaluation)
    ensures
        e@ == wrapped(HISTORY_FORWARD@, ReplyView::Null),
{
    wrapped_evaluation(String::from_str(HISTORY_FORWARD), Reply::Null)
}


/// Loads the document again.
pub const RELOAD: &'static str = "window.location.reload();return null";

/// Loads the document again.
pub fn navigate_refresh() -> (e: Evaluation)
    ensures
        e@ == wrapped(RELOAD@, ReplyView::Null),
{
    wrapped_evaluation(String::from_str(RELOAD), Reply::Null)
}


/// The text of the open dialog. It throws where none is open.
pub const ALERT_TEXT: &'static str = "var d=window.__WEBDRIVER__.__dialog;if(!d.open)throw new Error('no such alert');return d.text";

/// The text of the open dialog. It throws where none is open.
pub fn alert_get_text() -> (e: Evaluation)
    ensures
        e@ == wrapped(ALERT_TEXT@, ReplyView::Member("text"@)),
{
    wrapped_evaluation(String::from_str(ALERT_TEXT), member("text"))
}


/// Dismisses the open dialog. It throws where none is open.
pub const ALERT_DISMISS: &'static str = "var d=window.__WEBDRIVER__.__dialog;if(!d.open)throw new Error('no such alert');if(d.type==='confirm')d.response=false;if(d.type==='prompt')d.response=null;d.open=false;return null";

/// Dismisses the open dialog. It throws where none is open.
pub fn alert_dismiss() -> (e: Evaluation)
    ensures
        e@ == wrapped(ALERT_DISMISS@, ReplyView::Null),
{
    wrapped_evaluation(String::from_str(ALERT_DISMISS), Reply::Null)
}


/// Accepts the open dialog; a prompt that was sent no text answers with its default. It throws where none is open.
pub const ALERT_ACCEPT: &'static str = "var d=window.__WEBDRIVER__.__dialog;if(!d.open)throw new Error('no such alert');if(d.type==='confirm')d.response=true;if(d.type==='prompt'&&d.response===null)d.response=d.defaultValue||'';d.open=false;return null";

/// Accepts the open dialog; a prompt that was sent no text answers with its default. It throws where none is open.
pub fn alert_accept() -> (e: Evaluation)
    ensures
        e@ == wrapped(ALERT_ACCEPT@, ReplyView::Null),
{
    wrapped_evaluation(String::from_str(ALERT_ACCEPT), Reply::Null)
}


/// The cookies of the simulated jar.
pub const COOKIES_ALL: &'static str = "\nvar store = window.__WEBDRIVER__.cookies;\nvar cookies = [];\nvar keys = Object.keys(store);\nfor (var i = 0; i < keys.length; i++) {\n    cookies.push(store[keys[i]]);\n}\nreturn cookies;\n";

/// The cookies of the simulated jar.
pub fn cookie_get_all() -> (e: Evaluation)
    ensures
        e@ == wrapped(COOKIES_ALL@, ReplyView::Member("cookies"@)),
{
    wrapped_evaluation(String::from_str(COOKIES_ALL), member("cookies"))
}


/// Empties the simulated jar.
pub const COOKIES_CLEAR: &'static str = "var s=window.__WEBDRIVER__.cookies;var k=Object.keys(s);for(var i=0;i<k.length;i++)delete s[k[i]];return null";

/// Empties the simulated jar.
pub fn cookie_delete_all() -> (e: Evaluation)
    ensures
        e@ == wrapped(COOKIES_CLEAR@, ReplyView::Null),
{
    wrapped_evaluation(String::from_str(COOKIES_CLEAR), Reply::Null)
}


/// A reference to the element that has the focus.
pub const ACTIVE_ELEMENT: &'static str = "return window.__WEBDRIVER__.getActiveElement()";

/// A reference to the element that has the focus.
pub fn element_active() -> (e: Evaluation)
    ensures
        e@ == wrapped(ACTIVE_ELEMENT@, ReplyView::Member("element"@)),
{
    wrapped_evaluation(String::from_str(ACTIVE_ELEMENT), member("element"))
}


/// The markup of the current document.
pub const PAGE_SOURCE: &'static str = "return document.documentElement.outerHTML";

/// The markup of the current document.
pub fn get_source() -> (e: Evaluation)
    ensures
        e@ == wrapped(PAGE_SOURCE@, ReplyView::Member("source"@)),
{
    wrapped_evaluation(String::from_str(PAGE_SOURCE), member("source"))
}


/// The function body that makes `text` the answer of the open prompt. It throws
/// where no dialog is open or the open one is no prompt.
pub open spec fn alert_send_text_body(text: Seq<char>) -> Seq<char> {
    "var d=window.__WEBDRIVER__.__dialog;if(!d.open)throw new Error('no such alert');if(d.type!=='prompt')throw new Error('no such alert');d.response="@ + quoted(text) + ";return null"@
}

/// Makes `text` the answer of the open prompt.
pub fn alert_send_text(text: &str) -> (e: Evaluation)
    ensures
        e@ == wrapped(alert_send_text_body(text@), ReplyView::Null),
{
    let mut js = String::from_str("var d=window.__WEBDRIVER__.__dialog;if(!d.open)throw new Error('no such alert');if(d.type!=='prompt')throw new Error('no such alert');d.response=");
    js.append(json_quote(text).as_str());
    js.append(";return null");
    wrapped_evaluation(js, Reply::Null)
}

/// The function body that reads the cookie `name`, null where the jar has none.
pub open spec fn cookie_get_body(name: Seq<char>) -> Seq<char> {
    "var c=window.__WEBDRIVER__.cookies["@ + quoted(name) + "];return c||null"@
}

/// The cookie `name` of the simulated jar.
pub fn cookie_get(name: &str) -> (e: Evaluation)
    ensures
        e@ == wrapped(cookie_get_body(name@), ReplyView::Member("cookie"@)),
{
    let mut js = String::from_str("var c=window.__WEBDRIVER__.cookies[");
    js.append(json_quote(name).as_str());
    js.append("];return c||null");
    wrapped_evaluation(js, member("cookie"))
}

/// The function body that takes the cookie `name` out of the jar.
pub open spec fn cookie_delete_body(name: Seq<char>) -> Seq<char> {
    "delete window.__WEBDRIVER__.cookies["@ + quoted(name) + "];return null"@
}

/// Takes the cookie `name` out of the simulated jar.
pub fn cookie_delete(name: &str) -> (e: Evaluation)
    ensures
        e@ == wrapped(cookie_delete_body(name@), ReplyView::Null),
{
    let mut js = String::from_str("delete window.__WEBDRIVER__.cookies[");
    js.append(json_quote(name).as_str());
    js.append("];return null");
    wrapped_evaluation(js, Reply::Null)
}

/// How a script writes a truth value.
pub open spec fn bool_text(b: bool) -> Seq<char> {
    if b {
        "true"@
    } else {
        "false"@
    }
}

/// How a script writes a truth value.
pub fn bool_literal(b: bool) -> (text: &'static str)
    ensures
        text@ == bool_text(b),
{
    if b {
        "true"
    } else {
        "false"
    }
}

/// The expression for the domain of a cookie: the domain it names, else the host
/// of the window.
pub open spec fn cookie_domain(domain: Option<Seq<char>>) -> Seq<char> {
    match domain {
        Some(d) => quoted(d),
        None => "window.location.hostname"@,
    }
}

/// The expression for the expiry of a cookie: the time it names, else null.
pub open spec fn cookie_expiry(expiry: Option<u64>) -> Seq<char> {
    match expiry {
        Some(e) => decimal_digits(e as nat),
        None => "null"@,
    }
}

/// The function body that puts the cookie `c` into the jar under its name, over any
/// cookie of that name.
pub open spec fn cookie_add_body(c: CookieDataView) -> Seq<char> {
    "window.__WEBDRIVER__.cookies["@ + quoted(c.name) + "]={name:"@ + quoted(c.name) + ",value:"@
        + quoted(c.value) + ",path:"@ + quoted(c.path) + ",domain:"@ + cookie_domain(c.domain)
        + ",secure:"@ + bool_text(c.secure) + ",httpOnly:"@ + bool_text(c.http_only) + ",expiry:"@
        + cookie_expiry(c.expiry) + ",sameSite:\"Lax\"};return null"@
}

/// Puts the cookie `c` into the simulated jar.
pub fn cookie_add(c: &CookieData) -> (e: Evaluation)
    ensures
        e@ == wrapped(cookie_add_body(c@), ReplyView::Null),
{
    let mut js = String::from_str("window.__WEBDRIVER__.cookies[");
    js.append(json_quote(c.name.as_str()).as_str());
    js.append("]={name:");
    js.append(json_quote(c.name.as_str()).as_str());
    js.append(",value:");
    js.append(json_quote(c.value.as_str()).as_str());
    js.append(",path:");
    js.append(json_quote(c.path.as_str()).as_str());
    js.append(",domain:");
    match &c.domain {
        Some(d) => {
            js.append(json_quote(d.as_str()).as_str());
        },
        None => {
            js.append("window.location.hostname");
        },
    }
    js.append(",secure:");
    js.append(bool_literal(c.secure));
    js.append(",httpOnly:");
    js.append(bool_literal(c.http_only));
    js.append(",expiry:");
    match c.expiry {
        Some(e) => {
            js.append(decimal(e).as_str());
        },
        None => {
            js.append("null");
        },
    }
    js.append(",sameSite:\"Lax\"};return null");
    wrapped_evaluation(js, Reply::Null)
}


/// The pieces of the script that draws the document into a canvas, by way of an SVG image that holds its markup, and reports the canvas as a PNG in base64.
pub open spec fn screenshot_pieces() -> Seq<Seq<char>> {
    seq![
        "(function(){try{\nvar el=document.documentElement;\nvar w=Math.max(el.scrollWidth,el.clientWidth);\nvar h=Math.max(el.scrollHeight,el.clientHeight);\nvar xml=new XMLSerializer().serializeToString(el);\nvar svg='<svg xmlns=\"http://www.w3.org/2000/svg\" width=\"'+w+'\" height=\"'+h+'\">'\n+'<foreignObject width=\"100%\" height=\"100%\">'+xml+'</foreignObject></svg>';\nvar c=document.createElement('canvas');c.width=w;c.height=h;\nvar ctx=c.getContext('2d');var img=new Image();\nimg.onload=function(){try{ctx.drawImage(img,0,0);\nvar d=c.toDataURL('image/png').split(',')[1];\nwindow.__WEBDRIVER__.resolve(\""@,
        "\",d)}\ncatch(e){window.__WEBDRIVER__.resolve(\""@,
        "\",\n{error:\"SecurityError\",message:e.message,stacktrace:\"\"})}};\nimg.onerror=function(){window.__WEBDRIVER__.resolve(\""@,
        "\",\n{error:\"ScreenshotError\",message:\"SVG render failed\",stacktrace:\"\"})};\nimg.src='data:image/svg+xml;charset=utf-8,'+encodeURIComponent(svg)\n}catch(e){window.__WEBDRIVER__.resolve(\""@,
        "\",\n{error:e.name,message:e.message,stacktrace:e.stack||\"\"})}})()"@,
    ]
}


/// A picture of the document.
pub fn screenshot() -> (e: Evaluation)
    ensures
        e@ == (EvaluationView {
            kind: ScriptKind::Callback,
            pieces: screenshot_pieces(),
            reply: ReplyView::Member("data"@),
        }),
{
    let mut pieces: Vec<String> = Vec::new();
    pieces.push(String::from_str("(function(){try{\nvar el=document.documentElement;\nvar w=Math.max(el.scrollWidth,el.clientWidth);\nvar h=Math.max(el.scrollHeight,el.clientHeight);\nvar xml=new XMLSerializer().serializeToString(el);\nvar svg='<svg xmlns=\"http://www.w3.org/2000/svg\" width=\"'+w+'\" height=\"'+h+'\">'\n+'<foreignObject width=\"100%\" height=\"100%\">'+xml+'</foreignObject></svg>';\nvar c=document.createElement('canvas');c.width=w;c.height=h;\nvar ctx=c.getContext('2d');var img=new Image();\nimg.onload=function(){try{ctx.drawImage(img,0,0);\nvar d=c.toDataURL('image/png').split(',')[1];\nwindow.__WEBDRIVER__.resolve(\""));
    pieces.push(String::from_str("\",d)}\ncatch(e){window.__WEBDRIVER__.resolve(\""));
    pieces.push(String::from_str("\",\n{error:\"SecurityError\",message:e.message,stacktrace:\"\"})}};\nimg.onerror=function(){window.__WEBDRIVER__.resolve(\""));
    pieces.push(String::from_str("\",\n{error:\"ScreenshotError\",message:\"SVG render failed\",stacktrace:\"\"})};\nimg.src='data:image/svg+xml;charset=utf-8,'+encodeURIComponent(svg)\n}catch(e){window.__WEBDRIVER__.resolve(\""));
    pieces.push(String::from_str("\",\n{error:e.name,message:e.message,stacktrace:e.stack||\"\"})}})()"));
    assert(views(pieces@) =~= screenshot_pieces());
    Evaluation { kind: ScriptKind::Callback, pieces, reply: member("data") }
}


/// The pieces of the script that draws the document as for a picture and reports a PDF of one page that holds the picture, in base64. The file begins with the header of PDF 1.4 and ends with the end-of-file mark.
pub open spec fn print_pieces() -> Seq<Seq<char>> {
    seq![
        "(function(){try{\nvar el=document.documentElement;\nvar w=Math.max(el.scrollWidth,el.clientWidth);\nvar h=Math.max(el.scrollHeight,el.clientHeight);\nvar xml=new XMLSerializer().serializeToString(el);\nvar svg='<svg xmlns=\"http://www.w3.org/2000/svg\" width=\"'+w+'\" height=\"'+h+'\">'\n+'<foreignObject width=\"100%\" height=\"100%\">'+xml+'</foreignObject></svg>';\nvar c=document.createElement('canvas');c.width=w;c.height=h;\nvar ctx=c.getContext('2d');var img=new Image();\nimg.onload=function(){try{ctx.drawImage(img,0,0);\nvar pngDataUrl=c.toDataURL('image/png');\nvar pngB64=pngDataUrl.split(',')[1];\nvar bin=atob(pngB64);var len=bin.length;\nvar imgW=w;var imgH=h;\nvar pageW=612;var pageH=792;\nvar scaleX=pageW/imgW;var scaleY=pageH/imgH;\nvar sc=Math.min(scaleX,scaleY);\nvar dw=Math.round(imgW*sc);var dh=Math.round(imgH*sc);\nvar objs=[];var offsets=[];\nfunction addObj(s){offsets.push(objs.join('').length);objs.push(s)}\naddObj('%PDF-1.4\\n');\naddObj('1 0 obj\\n<< /Type /Catalog /Pages 2 0 R >>\\nendobj\\n');\naddObj('2 0 obj\\n<< /Type /Pages /Kids [3 0 R] /Count 1 >>\\nendobj\\n');\naddObj('3 0 obj\\n<< /Type /Page /Parent 2 0 R /MediaBox [0 0 '+pageW+' '+pageH+'] /Contents 5 0 R /Resources << /XObject << /Img 4 0 R >> >> >>\\nendobj\\n');\nvar imgStream='4 0 obj\\n<< /Type /XObject /Subtype /Image /Width '+imgW+' /Height '+imgH+' /ColorSpace /DeviceRGB /BitsPerComponent 8 /Filter /ASCIIHexDecode /Length '+(len*6+1)+' >>\\nstream\\n';\nvar hexParts=[];for(var i=0;i<len;i++){\nvar byte=bin.charCodeAt(i);\nhexParts.push(('0'+byte.toString(16)).slice(-2))}\nimgStream+=hexParts.join('')+'>\\nendstream\\nendobj\\n';\naddObj(imgStream);\nvar contentStr='q '+dw+' 0 0 '+dh+' 0 '+(pageH-dh)+' cm /Img Do Q';\naddObj('5 0 obj\\n<< /Length '+contentStr.length+' >>\\nstream\\n'+contentStr+'\\nendstream\\nendobj\\n');\nvar body=objs.join('');\nvar xrefOff=body.length;\nvar xref='xref\\n0 6\\n0000000000 65535 f \\n';\nfor(var j=1;j<offsets.length;j++){\nxref+=('0000000000'+offsets[j]).slice(-10)+' 00000 n \\n'}\nxref+='trailer\\n<< /Size 6 /Root 1 0 R >>\\nstartxref\\n'+xrefOff+'\\n%%EOF';\nvar pdf=body+xref;\nvar pdfB64=btoa(pdf);\nwindow.__WEBDRIVER__.resolve(\""@,
        "\",pdfB64)}\ncatch(e){window.__WEBDRIVER__.resolve(\""@,
        "\",\n{error:e.name,message:e.message,stacktrace:e.stack||\"\"})}};\nimg.onerror=function(){window.__WEBDRIVER__.resolve(\""@,
        "\",\n{error:\"PrintError\",message:\"SVG render failed\",stacktrace:\"\"})};\nimg.src='data:image/svg+xml;charset=utf-8,'+encodeURIComponent(svg)\n}catch(e){window.__WEBDRIVER__.resolve(\""@,
        "\",\n{error:e.name,message:e.message,stacktrace:e.stack||\"\"})}})()"@,
    ]
}


/// The document as a PDF.
pub fn print_page() -> (e: Evaluation)
    ensures
        e@ == (EvaluationView {
            kind: ScriptKind::Callback,
            pieces: print_pieces(),
            reply: ReplyView::Member("data"@),
        }),
{
    let mut pieces: Vec<String> = Vec::new();
    pieces.push(String::from_str("(function(){try{\nvar el=document.documentElement;\nvar w=Math.max(el.scrollWidth,el.clientWidth);\nvar h=Math.max(el.scrollHeight,el.clientHeight);\nvar xml=new XMLSerializer().serializeToString(el);\nvar svg='<svg xmlns=\"http://www.w3.org/2000/svg\" width=\"'+w+'\" height=\"'+h+'\">'\n+'<foreignObject width=\"100%\" height=\"100%\">'+xml+'</foreignObject></svg>';\nvar c=document.createElement('canvas');c.width=w;c.height=h;\nvar ctx=c.getContext('2d');var img=new Image();\nimg.onload=function(){try{ctx.drawImage(img,0,0);\nvar pngDataUrl=c.toDataURL('image/png');\nvar pngB64=pngDataUrl.split(',')[1];\nvar bin=atob(pngB64);var len=bin.length;\nvar imgW=w;var imgH=h;\nvar pageW=612;var pageH=792;\nvar scaleX=pageW/imgW;var scaleY=pageH/imgH;\nvar sc=Math.min(scaleX,scaleY);\nvar dw=Math.round(imgW*sc);var dh=Math.round(imgH*sc);\nvar objs=[];var offsets=[];\nfunction addObj(s){offsets.push(objs.join('').length);objs.push(s)}\naddObj('%PDF-1.4\\n');\naddObj('1 0 obj\\n<< /Type /Catalog /Pages 2 0 R >>\\nendobj\\n');\naddObj('2 0 obj\\n<< /Type /Pages /Kids [3 0 R] /Count 1 >>\\nendobj\\n');\naddObj('3 0 obj\\n<< /Type /Page /Parent 2 0 R /MediaBox [0 0 '+pageW+' '+pageH+'] /Contents 5 0 R /Resources << /XObject << /Img 4 0 R >> >> >>\\nendobj\\n');\nvar imgStream='4 0 obj\\n<< /Type /XObject /Subtype /Image /Width '+imgW+' /Height '+imgH+' /ColorSpace /DeviceRGB /BitsPerComponent 8 /Filter /ASCIIHexDecode /Length '+(len*6+1)+' >>\\nstream\\n';\nvar hexParts=[];for(var i=0;i<len;i++){\nvar byte=bin.charCodeAt(i);\nhexParts.push(('0'+byte.toString(16)).slice(-2))}\nimgStream+=hexParts.join('')+'>\\nendstream\\nendobj\\n';\naddObj(imgStream);\nvar contentStr='q '+dw+' 0 0 '+dh+' 0 '+(pageH-dh)+' cm /Img Do Q';\naddObj('5 0 obj\\n<< /Length '+contentStr.length+' >>\\nstream\\n'+contentStr+'\\nendstream\\nendobj\\n');\nvar body=objs.join('');\nvar xrefOff=body.length;\nvar xref='xref\\n0 6\\n0000000000 65535 f \\n';\nfor(var j=1;j<offsets.length;j++){\nxref+=('0000000000'+offsets[j]).slice(-10)+' 00000 n \\n'}\nxref+='trailer\\n<< /Size 6 /Root 1 0 R >>\\nstartxref\\n'+xrefOff+'\\n%%EOF';\nvar pdf=body+xref;\nvar pdfB64=btoa(pdf);\nwindow.__WEBDRIVER__.resolve(\""));
    pieces.push(String::from_str("\",pdfB64)}\ncatch(e){window.__WEBDRIVER__.resolve(\""));
    pieces.push(String::from_str("\",\n{error:e.name,message:e.message,stacktrace:e.stack||\"\"})}};\nimg.onerror=function(){window.__WEBDRIVER__.resolve(\""));
    pieces.push(String::from_str("\",\n{error:\"PrintError\",message:\"SVG render failed\",stacktrace:\"\"})};\nimg.src='data:image/svg+xml;charset=utf-8,'+encodeURIComponent(svg)\n}catch(e){window.__WEBDRIVER__.resolve(\""));
    pieces.push(String::from_str("\",\n{error:e.name,message:e.message,stacktrace:e.stack||\"\"})}})()"));
    assert(views(pieces@) =~= print_pieces());
    Evaluation { kind: ScriptKind::Callback, pieces, reply: member("data") }
}


/// The pieces of the script that draws the document as for a picture and reports
/// the part of it that the element `target` covers: a canvas as wide and as high as
/// the element's rectangle, each rounded up.
pub open spec fn screenshot_element_pieces(target: ElemReqView) -> Seq<Seq<char>> {
    seq![
        "(function(){try{\nvar tgt=window.__WEBDRIVER__."@ + finder(target.using) + "("@ + quoted(target.selector) + ","@ + decimal_digits(target.index as nat) + ");\nif(!tgt){window.__WEBDRIVER__.resolve(\""@,
        "\",\n{error:\"NoSuchElement\",message:\"element not found\",stacktrace:\"\"});return}\nvar rect=tgt.getBoundingClientRect();\nvar el=document.documentElement;\nvar w=Math.max(el.scrollWidth,el.clientWidth);\nvar h=Math.max(el.scrollHeight,el.clientHeight);\nvar xml=new XMLSerializer().serializeToString(el);\nvar svg='<svg xmlns=\"http://www.w3.org/2000/svg\" width=\"'+w+'\" height=\"'+h+'\">'\n+'<foreignObject width=\"100%\" height=\"100%\">'+xml+'</foreignObject></svg>';\nvar fc=document.createElement('canvas');fc.width=w;fc.height=h;\nvar fctx=fc.getContext('2d');var img=new Image();\nimg.onload=function(){try{fctx.drawImage(img,0,0);\nvar c=document.createElement('canvas');\nc.width=Math.ceil(rect.width);c.height=Math.ceil(rect.height);\nvar ctx=c.getContext('2d');\nctx.drawImage(fc,rect.x,rect.y,rect.width,rect.height,0,0,rect.width,rect.height);\nvar d=c.toDataURL('image/png').split(',')[1];\nwindow.__WEBDRIVER__.resolve(\""@,
        "\",d)}\ncatch(e){window.__WEBDRIVER__.resolve(\""@,
        "\",\n{error:\"SecurityError\",message:e.message,stacktrace:\"\"})}};\nimg.onerror=function(){window.__WEBDRIVER__.resolve(\""@,
        "\",\n{error:\"ScreenshotError\",message:\"SVG render failed\",stacktrace:\"\"})};\nimg.src='data:image/svg+xml;charset=utf-8,'+encodeURIComponent(svg)\n}catch(e){window.__WEBDRIVER__.resolve(\""@,
        "\",\n{error:e.name,message:e.message,stacktrace:e.stack||\"\"})}})()\n"@,
    ]
}

/// A picture of an element.
pub fn screenshot_element(target: &ElemReq) -> (e: Evaluation)
    ensures
        e@ == (EvaluationView {
            kind: ScriptKind::Callback,
            pieces: screenshot_element_pieces(target@),
            reply: ReplyView::Member("data"@),
        }),
{
    let mut first = String::from_str("(function(){try{\nvar tgt=window.__WEBDRIVER__.");
    first.append(finder_of(&target.using));
    first.append("(");
    first.append(json_quote(target.selector.as_str()).as_str());
    first.append(",");
    first.append(decimal(target.index).as_str());
    first.append(");\nif(!tgt){window.__WEBDRIVER__.resolve(\"");
    let mut pieces: Vec<String> = Vec::new();
    pieces.push(first);

    pieces.push(String::from_str("\",\n{error:\"NoSuchElement\",message:\"element not found\",stacktrace:\"\"});return}\nvar rect=tgt.getBoundingClientRect();\nvar el=document.documentElement;\nvar w=Math.max(el.scrollWidth,el.clientWidth);\nvar h=Math.max(el.scrollHeight,el.clientHeight);\nvar xml=new XMLSerializer().serializeToString(el);\nvar svg='<svg xmlns=\"http://www.w3.org/2000/svg\" width=\"'+w+'\" height=\"'+h+'\">'\n+'<foreignObject width=\"100%\" height=\"100%\">'+xml+'</foreignObject></svg>';\nvar fc=document.createElement('canvas');fc.width=w;fc.height=h;\nvar fctx=fc.getContext('2d');var img=new Image();\nimg.onload=function(){try{fctx.drawImage(img,0,0);\nvar c=document.createElement('canvas');\nc.width=Math.ceil(rect.width);c.height=Math.ceil(rect.height);\nvar ctx=c.getContext('2d');\nctx.drawImage(fc,rect.x,rect.y,rect.width,rect.height,0,0,rect.width,rect.height);\nvar d=c.toDataURL('image/png').split(',')[1];\nwindow.__WEBDRIVER__.resolve(\""));
    pieces.push(String::from_str("\",d)}\ncatch(e){window.__WEBDRIVER__.resolve(\""));
    pieces.push(String::from_str("\",\n{error:\"SecurityError\",message:e.message,stacktrace:\"\"})}};\nimg.onerror=function(){window.__WEBDRIVER__.resolve(\""));
    pieces.push(String::from_str("\",\n{error:\"ScreenshotError\",message:\"SVG render failed\",stacktrace:\"\"})};\nimg.src='data:image/svg+xml;charset=utf-8,'+encodeURIComponent(svg)\n}catch(e){window.__WEBDRIVER__.resolve(\""));
    pieces.push(String::from_str("\",\n{error:e.name,message:e.message,stacktrace:e.stack||\"\"})}})()\n"));
    assert(views(pieces@) =~= screenshot_element_pieces(target@));
    Evaluation { kind: ScriptKind::Callback, pieces, reply: member("data") }
}

/// The label of a window that the server opens: `wd-` and what follows it.
pub open spec fn window_label(suffix: Seq<char>) -> Seq<char> {
    "wd-"@ + suffix
}

/// A label for a new window: `wd-` and a fresh random identifier.
pub fn new_window_label() -> (label: String)
    ensures
        exists|suffix: Seq<char>| label@ == #[trigger] window_label(suffix),
{
    let id = fresh_id();
    let mut label = String::from_str("wd-");
    label.append(id.as_str());
    assert(label@ == window_label(id@));
    label
}

/// The answer that tells of the new window `label`.
pub fn window_new_reply(label: &str) -> (out: Json)
    ensures
        out@ == JsonValue::Object(
            seq![("handle"@, JsonValue::Str(label@)), ("type"@, JsonValue::Str("window"@))],
        ),
{
    let mut entries = no_entries();
    put(&mut entries, "handle", Json::text(label));
    put(&mut entries, "type", Json::text("window"));
    assert(entries_view(entries@) =~= seq![
        ("handle"@, JsonValue::Str(label@)),
        ("type"@, JsonValue::Str("window"@)),
    ]);
    Json::object(entries)
}

/// The answer that lists the windows `labels`.
pub fn window_handles_reply(labels: &Vec<String>) -> (out: Json)
    ensures
        out@ == JsonValue::Array(Seq::new(labels@.len(), |i: int| JsonValue::Str(labels@[i]@))),
{
    let mut items: Vec<Json> = Vec::new();
    let mut i: usize = 0;
    while i < labels.len()
        invariant
            i <= labels.len(),
            items@.len() == i,
            forall|k: int| 0 <= k < i ==> (#[trigger] items@[k])@ == JsonValue::Str(labels@[k]@),
        decreases labels.len() - i,
    {
        items.push(Json::text(labels[i].as_str()));
        i += 1;
    }
    assert(crate::json::items_view(items@) =~= Seq::new(
        labels@.len(),
        |i: int| JsonValue::Str(labels@[i]@),
    ));
    Json::array(items)
}

/// What a change of a window's rectangle asks of the host: to move the window where
/// both coordinates are given, to resize it where both extents are.
pub fn window_set_rect(x: bool, y: bool, width: bool, height: bool) -> (plan: (bool, bool))
    ensures
        plan.0 == (x && y),
        plan.1 == (width && height),
{
    (x && y, width && height)
}

/// The scripts that read the address and the title of the page are the same in
/// every frame but for the steps that lead into the frame, and read from the window
/// and never from the document that a frame puts in its place. So the answer is
/// that of the top-level document whatever frame the context is in.
pub proof fn law_top_level_reads_ignore_frames(frames: Seq<FrameRefView>, id: Seq<char>)
    ensures
        rendered(frames, wrapped(CURRENT_URL@, ReplyView::Member("url"@)), id) == wrapped_script(
            frames,
            "return window.location.href"@,
            id,
        ),
        rendered(frames, wrapped(CURRENT_TITLE@, ReplyView::Member("title"@)), id)
            == wrapped_script(frames, "return window.document.title"@, id),
{
}

} // verus!
