//! The boundary-editor page: the HTML handed to the web view and the messages
//! it sends back.
//!
//! The page shows AMap, which works in GCJ-02 coordinates; the conversion
//! between WGS-84 and GCJ-02 is floating-point work and stays outside the
//! library, which receives the page's bootstrap data already serialized and the
//! submitted vertices already converted.
use crate::search::{url_encode_chars, url_encoded};
use crate::text::{
    chars_of, concat_chars, decimal, decimal_chars, is_blank, matches_at, occurs_at, string_of,
    trim, trim_str,
};
use vstd::prelude::*;

verus! {

#[derive(Debug, Clone, PartialEq, Eq)]
pub enum BoundaryMapError {
    MissingJsApiKey,
    MissingSecurityCode,
    InvalidMessage(String),
    InvalidCoordinate { index: usize },
}

pub open spec fn map_error_message(e: BoundaryMapError) -> Seq<char> {
    match e {
        BoundaryMapError::MissingJsApiKey => "AMAP_JS_KEY is not configured"@,
        BoundaryMapError::MissingSecurityCode => "AMAP_JS_SECURITY_CODE is not configured"@,
        BoundaryMapError::InvalidMessage(detail) => "boundary map message is invalid: "@ + detail@,
        BoundaryMapError::InvalidCoordinate { index } => "boundary map coordinate at index "@
            + decimal(index as nat) + " is invalid"@,
    }
}

impl BoundaryMapError {
    /// The message of the error, for display.
    pub fn message(&self) -> (r: String)
        ensures
            r@ == map_error_message(*self),
    {
        let text = match self {
            BoundaryMapError::MissingJsApiKey => chars_of("AMAP_JS_KEY is not configured"),
            BoundaryMapError::MissingSecurityCode => chars_of(
                "AMAP_JS_SECURITY_CODE is not configured",
            ),
            BoundaryMapError::InvalidMessage(detail) => {
                let head = chars_of("boundary map message is invalid: ");
                concat_chars(&head, &chars_of(detail.as_str()))
            },
            BoundaryMapError::InvalidCoordinate { index } => {
                let head = chars_of("boundary map coordinate at index ");
                let with_index = concat_chars(&head, &decimal_chars(*index as u64));
                concat_chars(&with_index, &chars_of(" is invalid"))
            },
        };
        string_of(&text)
    }
}

/// A message of the boundary page; `V` is the type of a WGS-84 vertex.
#[derive(Debug, Clone, PartialEq)]
pub enum BoundaryMapEvent<V> {
    Ready,
    Cancel,
    SubmitBoundary(Vec<V>),
}

/// The first position, from `i` on, of a vertex that could not be converted.
pub open spec fn first_invalid_from<V>(converted: Seq<Option<V>>, i: int) -> Option<int>
    decreases converted.len() - i,
{
    if i < 0 || i >= converted.len() {
        None
    } else if converted[i] is None {
        Some(i)
    } else {
        first_invalid_from(converted, i + 1)
    }
}

/// The vertices of a submitted boundary, given each submitted coordinate pair
/// converted to a WGS-84 vertex (`None` where the pair is not a valid coordinate).
///
/// Fails with `InvalidCoordinate` at the first pair that is not valid.
pub fn submitted_vertices<V: Copy>(converted: &Vec<Option<V>>) -> (r: Result<
    Vec<V>,
    BoundaryMapError,
>)
    ensures
        first_invalid_from(converted@, 0) matches Some(i) ==> r == Err::<Vec<V>, BoundaryMapError>(
            BoundaryMapError::InvalidCoordinate { index: i as usize },
        ),
        first_invalid_from(converted@, 0) is None ==> (r matches Ok(v) && v@.len()
            == converted@.len() && forall|j: int|
            0 <= j < v@.len() ==> converted@[j] == Some(#[trigger] v@[j])),
{
    let mut out: Vec<V> = Vec::new();
    let mut i: usize = 0;
    while i < converted.len()
        invariant
            0 <= i <= converted@.len(),
            first_invalid_from(converted@, 0) == first_invalid_from(converted@, i as int),
            out@.len() == i,
            forall|j: int| 0 <= j < i ==> converted@[j] == Some(#[trigger] out@[j]),
        decreases converted.len() - i,
    {
        match converted[i] {
            Some(v) => out.push(v),
            None => return Err(BoundaryMapError::InvalidCoordinate { index: i }),
        }
        i = i + 1;
    }
    Ok(out)
}

/// The text that stands for a character inside the page's inline JSON: `&`, `<`
/// and `>` become JSON unicode escapes, so that the data cannot close the
/// script element; every other character stands for itself.
pub open spec fn escape_char(c: char) -> Seq<char> {
    if c == '&' {
        seq!['\\', 'u', '0', '0', '2', '6']
    } else if c == '<' {
        seq!['\\', 'u', '0', '0', '3', 'c']
    } else if c == '>' {
        seq!['\\', 'u', '0', '0', '3', 'e']
    } else {
        seq![c]
    }
}

/// JSON text made safe to inline in a script element.
pub open spec fn escape_script_text(s: Seq<char>) -> Seq<char>
    decreases s.len(),
{
    if s.len() == 0 {
        seq![]
    } else {
        escape_script_text(s.drop_last()) + escape_char(s.last())
    }
}

/// Escaping changes only `&`, `<` and `>`: every other character stands for
/// itself, so text that holds none of the three is left exactly as it is.
pub proof fn escaping_keeps_other_characters(s: Seq<char>, c: char)
    ensures
        c != '&' && c != '<' && c != '>' ==> escape_char(c) == seq![c],
        (forall|i: int| 0 <= i < s.len() ==> #[trigger] s[i] != '&' && s[i] != '<' && s[i] != '>')
            ==> escape_script_text(s) == s,
    decreases s.len(),
{
    if s.len() > 0 {
        escaping_keeps_other_characters(s.drop_last(), c);
        if forall|i: int| 0 <= i < s.len() ==> #[trigger] s[i] != '&' && s[i] != '<' && s[i] != '>' {
            let prev = s.drop_last();
            assert forall|i: int| 0 <= i < prev.len() implies #[trigger] prev[i] != '&' && prev[i]
                != '<' && prev[i] != '>' by {
                assert(prev[i] == s[i]);
            }
            assert(s.last() == s[s.len() - 1]);
            assert(escape_script_text(s) =~= prev + seq![s.last()]);
            assert(prev + seq![s.last()] =~= s);
        }
    }
}

/// The escaped text holds no `&`, `<` or `>`: whatever the bootstrap data holds,
/// it cannot end the script element it is inlined in.
pub proof fn escaped_text_cannot_close_script(s: Seq<char>)
    ensures
        forall|i: int|
            0 <= i < escape_script_text(s).len() ==> {
                let c = #[trigger] escape_script_text(s)[i];
                c != '&' && c != '<' && c != '>'
            },
    decreases s.len(),
{
    if s.len() > 0 {
        escaped_text_cannot_close_script(s.drop_last());
        let a = escape_script_text(s.drop_last());
        let b = escape_char(s.last());
        assert forall|i: int| 0 <= i < (a + b).len() implies {
            let c = #[trigger] (a + b)[i];
            c != '&' && c != '<' && c != '>'
        } by {
            if i >= a.len() {
                assert((a + b)[i] == b[i - a.len()]);
            } else {
                assert((a + b)[i] == a[i]);
            }
        }
    }
}

/// Escapes JSON text for inlining in a script element.
pub fn escape_script_json(json: &str) -> (r: Vec<char>)
    ensures
        r@ == escape_script_text(json@),
{
    let s = chars_of(json);
    let mut out: Vec<char> = Vec::new();
    let mut i: usize = 0;
    while i < s.len()
        invariant
            0 <= i <= s@.len(),
            out@ == escape_script_text(s@.take(i as int)),
        decreases s.len() - i,
    {
        let c = s[i];
        proof {
            let t = s@.take(i + 1);
            assert(t.drop_last() =~= s@.take(i as int));
            assert(t.last() == c);
        }
        if c == '&' {
            out = concat_chars(&out, &vec!['\\', 'u', '0', '0', '2', '6']);
        } else if c == '<' {
            out = concat_chars(&out, &vec!['\\', 'u', '0', '0', '3', 'c']);
        } else if c == '>' {
            out = concat_chars(&out, &vec!['\\', 'u', '0', '0', '3', 'e']);
        } else {
            out.push(c);
        }
        assert(out@ =~= escape_script_text(s@.take(i + 1)));
        i = i + 1;
    }
    assert(s@.take(s@.len() as int) =~= s@);
    out
}

/// `s` with every occurrence of `pat` replaced by `rep`, matches taken from the
/// left without overlapping, as `str::replace` does for a non-empty pattern.
pub open spec fn replace_all(s: Seq<char>, pat: Seq<char>, rep: Seq<char>) -> Seq<char>
    decreases s.len(),
{
    if pat.len() == 0 || s.len() < pat.len() {
        s
    } else if s.subrange(0, pat.len() as int) == pat {
        rep + replace_all(s.subrange(pat.len() as int, s.len() as int), pat, rep)
    } else {
        seq![s[0]] + replace_all(s.drop_first(), pat, rep)
    }
}

/// Replaces every occurrence of `pat` in `s` by `rep` (`str::replace`).
pub fn replace_chars(s: &Vec<char>, pat: &Vec<char>, rep: &Vec<char>) -> (r: Vec<char>)
    requires
        pat@.len() > 0,
    ensures
        r@ == replace_all(s@, pat@, rep@),
{
    let n = s.len();
    let mut out: Vec<char> = Vec::new();
    let mut i: usize = 0;
    assert(s@.subrange(0, n as int) =~= s@);
    while i < n
        invariant
            n == s@.len(),
            pat@.len() > 0,
            0 <= i <= n,
            out@ + replace_all(s@.subrange(i as int, n as int), pat@, rep@) == replace_all(
                s@,
                pat@,
                rep@,
            ),
        decreases n - i,
    {
        let ghost rest = s@.subrange(i as int, n as int);
        if pat.len() <= n - i && matches_at(s, pat, i) {
            proof {
                assert(rest.subrange(0, pat@.len() as int) =~= s@.subrange(
                    i as int,
                    i + pat@.len(),
                ));
                assert(rest.subrange(pat@.len() as int, rest.len() as int) =~= s@.subrange(
                    i + pat@.len(),
                    n as int,
                ));
                assert(out@ + rep@ + replace_all(s@.subrange(i + pat@.len(), n as int), pat@, rep@)
                    =~= out@ + replace_all(rest, pat@, rep@));
            }
            out = concat_chars(&out, rep);
            i = i + pat.len();
        } else {
            proof {
                assert(rest.drop_first() =~= s@.subrange(i + 1, n as int));
                assert(rest[0] == s@[i as int]);
                if rest.len() >= pat@.len() {
                    assert(rest.subrange(0, pat@.len() as int) =~= s@.subrange(
                        i as int,
                        i + pat@.len(),
                    ));
                }
                assert(out@.push(s@[i as int]) + replace_all(s@.subrange(i + 1, n as int), pat@, rep@)
                    =~= out@ + replace_all(rest, pat@, rep@));
            }
            out.push(s[i]);
            i = i + 1;
        }
    }
    assert(s@.subrange(n as int, n as int) =~= Seq::<char>::empty());
    assert(out@ + Seq::<char>::empty() =~= out@);
    out
}

/// The boundary editor page for the escaped bootstrap data and the encoded key.
pub open spec fn editor_html(safe_json: Seq<char>, encoded_key: Seq<char>) -> Seq<char> {
    replace_all(
        replace_all(BOUNDARY_EDITOR_HTML@, "__BOOTSTRAP_JSON__"@, safe_json),
        "__AMAP_JS_KEY__"@,
        encoded_key,
    )
}

/// The boundary editor page.
///
/// Fails with `MissingJsApiKey` when the JS API key is blank, then with
/// `MissingSecurityCode` when the security code is blank; otherwise the page is
/// the template with the escaped bootstrap JSON and the percent-encoded trimmed
/// key put in.
pub fn build_boundary_editor_html(js_api_key: &str, security_code: &str, bootstrap_json: &str) -> (r:
    Result<String, BoundaryMapError>)
    ensures
        is_blank(js_api_key@) ==> r == Err::<String, BoundaryMapError>(
            BoundaryMapError::MissingJsApiKey,
        ),
        !is_blank(js_api_key@) && is_blank(security_code@) ==> r == Err::<String, BoundaryMapError>(
            BoundaryMapError::MissingSecurityCode,
        ),
        !is_blank(js_api_key@) && !is_blank(security_code@) ==> (r matches Ok(html) && html@
            == editor_html(escape_script_text(bootstrap_json@), url_encoded(trim(js_api_key@)))),
{
    let key = trim_str(js_api_key);
    if key.len() == 0 {
        return Err(BoundaryMapError::MissingJsApiKey);
    }
    if trim_str(security_code).len() == 0 {
        return Err(BoundaryMapError::MissingSecurityCode);
    }
    let safe_json = escape_script_json(bootstrap_json);
    let encoded_key = url_encode_chars(&key);
    let template = chars_of(BOUNDARY_EDITOR_HTML);
    let json_marker = chars_of("__BOOTSTRAP_JSON__");
    let key_marker = chars_of("__AMAP_JS_KEY__");
    proof {
        reveal_strlit("__BOOTSTRAP_JSON__");
        reveal_strlit("__AMAP_JS_KEY__");
    }
    let with_json = replace_chars(&template, &json_marker, &safe_json);
    let page = replace_chars(&with_json, &key_marker, &encoded_key);
    Ok(string_of(&page))
}

pub const BOUNDARY_EDITOR_HTML: &'static str = r#"<!doctype html>
<html lang="zh-CN"><head><meta charset="utf-8"><meta name="viewport" content="width=device-width,initial-scale=1">
<title>MCRebuild 边界编辑</title>
<style>
html,body{height:100%;margin:0;font-family:system-ui,-apple-system,"Segoe UI",sans-serif;background:#f5f6f8;color:#1f2328}
#app{height:100%;display:grid;grid-template-columns:280px 1fr}#panel{box-sizing:border-box;padding:22px;background:#fff;border-right:1px solid #e5e7eb;display:flex;flex-direction:column;gap:16px}
#campus{font-size:18px;font-weight:650;line-height:1.35}#hint,#status{font-size:13px;line-height:1.55;color:#59636e}#status{padding:10px 12px;border-radius:8px;background:#f3f4f6}
.actions{display:grid;gap:10px;margin-top:auto}button{border:1px solid #cfd5dc;border-radius:8px;padding:10px 12px;background:#fff;font-size:14px;cursor:pointer}button.primary{border-color:#2563eb;background:#2563eb;color:#fff}button:disabled{opacity:.45;cursor:not-allowed}#map{height:100%;min-width:0}
</style>
<script id="mcrebuild-bootstrap" type="application/json">__BOOTSTRAP_JSON__</script>
<script>const bootstrap=JSON.parse(document.getElementById('mcrebuild-bootstrap').textContent);window._AMapSecurityConfig={securityJsCode:bootstrap.securityCode};</script>
<script src="https://webapi.amap.com/maps?v=2.0&key=__AMAP_JS_KEY__&plugin=AMap.MouseTool,AMap.PolygonEditor"></script></head>
<body><div id="app"><aside id="panel"><div><div id="campus"></div><div id="hint">拖动顶点可修正边界；需要重新圈选时点击“重新圈画”。边界有效性由 MCRebuild Core 最终校验。</div></div><div id="status">正在加载地图…</div><div class="actions"><button id="redraw">重新圈画</button><button id="save" class="primary" disabled>保存边界</button><button id="cancel">关闭</button></div></aside><main id="map"></main></div>
<script>(function(){
const campus=document.getElementById('campus'),status=document.getElementById('status'),save=document.getElementById('save'),redraw=document.getElementById('redraw'),cancel=document.getElementById('cancel');campus.textContent=bootstrap.campusDisplayName;
function send(message){if(window.ipc&&window.ipc.postMessage){window.ipc.postMessage(JSON.stringify(message));}}function setStatus(text){status.textContent=text;}
const map=new AMap.Map('map',{center:bootstrap.anchorGcj02,zoom:16,viewMode:'2D'});const mouseTool=new AMap.MouseTool(map);let polygon=null,editor=null;
function closeEditor(){if(editor){editor.close();editor=null;}}function removePolygon(){closeEditor();if(polygon){map.remove(polygon);polygon=null;}save.disabled=true;}
function editPolygon(next){closeEditor();polygon=next;editor=new AMap.PolygonEditor(map,polygon);editor.open();save.disabled=false;map.setFitView([polygon],false,[80,80,80,80]);setStatus('边界可编辑；确认无误后保存。');}
function startDrawing(){removePolygon();mouseTool.polygon({strokeColor:'#2563eb',strokeWeight:3,fillColor:'#2563eb',fillOpacity:.14});setStatus('单击添加顶点，双击结束圈画。');}
mouseTool.on('draw',function(event){mouseTool.close(false);editPolygon(event.obj);});
if(bootstrap.existingBoundaryGcj02&&bootstrap.existingBoundaryGcj02.length>=3){editPolygon(new AMap.Polygon({path:bootstrap.existingBoundaryGcj02,strokeColor:'#2563eb',strokeWeight:3,fillColor:'#2563eb',fillOpacity:.14}));}else{startDrawing();}
redraw.addEventListener('click',startDrawing);save.addEventListener('click',function(){if(!polygon)return;const coordinates=polygon.getPath().map(function(p){return[p.lng,p.lat];});setStatus('正在由 MCRebuild 校验并保存…');save.disabled=true;send({type:'submit_boundary',coordinates});});cancel.addEventListener('click',function(){send({type:'cancel'});});
window.mcrebuildBoundaryResult=function(result){save.disabled=!polygon;setStatus(result&&result.message?result.message:'边界处理完成。');};map.on('complete',function(){send({type:'ready'});});
})();</script></body></html>"#;

} // verus!
