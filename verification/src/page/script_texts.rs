//! The fixed texts of the scripts that disguise a browser.
use vstd::prelude::*;

verus! {

/// The script that takes `window.chrome` away.
pub open spec fn remove_chrome_text() -> Seq<char> {
    "(()=>{if('chrome' in window){delete window.chrome}; })();"@
}

/// The script that gives pages the `window.chrome` of a browser that is not driven.
pub open spec fn hide_chrome_text() -> Seq<char> {
    "(()=>{const d=Object.defineProperty,c=window.chrome||{};if(c.csi&&c.loadTimes){return}function np(){return{}}const m={getFieldTrial:function getFieldTrial(){},getHistogram:function getHistogram(){},getVariationParams:function getVariationParams(){},recordBoolean:function recordBoolean(){},recordCount:function recordCount(){}},tt={nowInMicroseconds:function nowInMicroseconds(){}},fns={app:{get:np},csi:function csi(){},loadTimes:function loadTimes(){},getVariableValue:function getVariableValue(){},send:function send(){}};for(const[k,v]of Object.entries(fns))'get'in v?d(c,k,{get:v.get,enumerable:!0,configurable:!0}):(v.toString=()=>`function ${k}() { [native code] }`,d(c,k,{value:v,enumerable:!0,configurable:!0}));d(c,'metricsPrivate',{value:m,enumerable:!0});d(c,'timeTicks',{value:tt,enumerable:!0});d(c,'runtime',{get:np,set:np,enumerable:!0,configurable:!0});d(window,'chrome',{value:c,writable:!0,enumerable:!0})})();"@
}

/// The script that silences the console.
pub open spec fn hide_console_text() -> Seq<char> {
    "['log','warn','error','info','debug','table', 'dir'].forEach((method)=>{console[method]=()=>{}});"@
}

/// The script that gives pages the PDF viewer of a browser that is not driven.
pub open spec fn navigator_text() -> Seq<char> {
    r#"(()=>{try{if(typeof navigator==='undefined')return;if('pdfViewerEnabled'in navigator)return;const p=Object.getPrototypeOf(navigator);if(!p)return;const g=function(){return!0};try{Object.defineProperty(g,'toString',{value:()=>"function get pdfViewerEnabled() { [native code] }",configurable:!0})}catch(_){}try{Object.defineProperty(p,'pdfViewerEnabled',{get:g,configurable:!0})}catch(_){} }catch(_){}})();"#@
}

/// The script that hides `navigator.webdriver`.
pub open spec fn hide_webdriver_text() -> Seq<char> {
    "(()=>{if(!navigator.webdriver){return}; const r=Function.prototype.toString,g=()=>false;Function.prototype.toString=function(){return this===g?'function get webdriver() { [native code] }':r.call(this)};Object.defineProperty(Navigator.prototype,'webdriver',{get:g,enumerable:false,configurable:true})})();"@
}

/// The script that hides who made the graphics card.
pub open spec fn hide_webgl_text() -> Seq<char> {
    r#"(()=>{const v='Google Inc. (NVIDIA)',r='ANGLE (NVIDIA, NVIDIA GeForce GTX 1050 Direct3D11 vs_5_0 ps_5_0, D3D11-27.21.14.5671)',f=p=>p===37445?v:p===37446?r:null;for(const k of['WebGLRenderingContext','WebGL2RenderingContext']){const o=globalThis[k]?.prototype?.getParameter;if(o){Object.defineProperty(globalThis[k].prototype,'getParameter',{value:function(p){const spoof=f(p);return spoof??o.call(this,p);},configurable:true});}}const wrap=W=>function(u,...a){const abs=new URL(u,location.href).toString(),b=`(()=>{const v='${v}',r='${r}',f=p=>p===37445?v:p===37446?r:null;for(const k of['WebGLRenderingContext','WebGL2RenderingContext']){const o=self[k]?.prototype?.getParameter;if(o){Object.defineProperty(self[k].prototype,'getParameter',{value:function(p){const s=f(p);return s??o.call(this,p);},configurable:true});}}fetch("${abs}").then(r=>r.text()).then(t=>(0,eval)(t));})();`;return new W(URL.createObjectURL(new Blob([b],{type:'application/javascript'})),...a)};window.Worker=wrap(window.Worker);window.SharedWorker=wrap(window.SharedWorker);})();"#@
}

/// The script that gives pages the permissions of a browser that is not driven.
pub open spec fn hide_permissions_text() -> Seq<char> {
    "(()=>{const originalQuery=window.navigator.permissions.query;window.navigator.permissions.__proto__.query=parameters=>{ return parameters.name === 'notifications' ? Promise.resolve({ state: Notification.permission }) : originalQuery(parameters) }; })();"@
}

/// The script that keeps dialogs from blocking a page.
pub open spec fn disable_dialogs_text() -> Seq<char> {
    "(()=>{const a=window.alert.toString(),c=window.confirm.toString(),p=window.prompt.toString();window.alert=function alert(){};Object.defineProperty(window.alert,'toString',{value:()=>a,configurable:true});window.confirm=function confirm(){return true};Object.defineProperty(window.confirm,'toString',{value:()=>c,configurable:true});window.prompt=function prompt(){return ''};Object.defineProperty(window.prompt,'toString',{value:()=>p,configurable:true});})();"@
}

/// The script that gives pages the plugins of a browser that is not driven.
pub open spec fn plugins_text() -> Seq<char> {
    "(()=>{if('plugins' in navigator && navigator.plugins.length){return};const m=[{type:'application/pdf',suffixes:'pdf',description:'Portable Document Format'},{type:'text/pdf',suffixes:'pdf',description:'Portable Document Format'}],names=['PDF Viewer','Chrome PDF Viewer','Chromium PDF Viewer','Microsoft Edge PDF Viewer','WebKit built-in PDF'],plugins=[],mimes=[];names.forEach(name=>{const plugin=Object.create(Plugin.prototype);Object.defineProperties(plugin,{name:{value:name},description:{value:'Portable Document Format'},filename:{value:'internal-pdf-viewer'},length:{value:2}});const mt1=Object.create(MimeType.prototype),mt2=Object.create(MimeType.prototype);Object.defineProperties(mt1,{type:{value:m[0].type},suffixes:{value:m[0].suffixes},description:{value:m[0].description},enabledPlugin:{value:plugin}});Object.defineProperties(mt2,{type:{value:m[1].type},suffixes:{value:m[1].suffixes},description:{value:m[1].description},enabledPlugin:{value:plugin}});plugin[0]=mt1;plugin[1]=mt2;mimes.push(mt1,mt2);plugins.push(plugin)});Object.defineProperties(PluginArray.prototype,{item:{value:function(i){return this[i]||null}},namedItem:{value:function(n){return this[n]||null}},toJSON:{value:function(){return[...Array(this.length)].map((_,i)=>this[i])}}});Object.defineProperties(MimeTypeArray.prototype,{item:{value:function(i){return this[i]||null}},namedItem:{value:function(n){return this[n]||null}}});const pa=Object.create(PluginArray.prototype),ma=Object.create(MimeTypeArray.prototype);plugins.forEach((p,i)=>{Object.defineProperty(pa,i,{value:p,enumerable:true});Object.defineProperty(pa,p.name,{value:p})});Object.defineProperty(pa,'length',{value:plugins.length,enumerable:false});const seen=new Set();mimes.forEach((mt,i)=>{Object.defineProperty(ma,i,{value:mt,enumerable:true});if(!seen.has(mt.type)){seen.add(mt.type);Object.defineProperty(ma,mt.type,{value:mt})}});Object.defineProperty(ma,'length',{value:mimes.length,enumerable:false});const g=(v,n)=>{const f=()=>v;Object.defineProperty(f,'toString',{value:()=>`function get ${n}() { [native code] }`});return f};Object.defineProperties(Navigator.prototype,{plugins:{get:g(pa,'plugins')},mimeTypes:{get:g(ma,'mimeTypes')}})})();"@
}

/// The script that gives pages the plugins of Chrome.
pub open spec fn chrome_plugins_text() -> Seq<char> {
    "(()=>{if('plugins'in navigator&&navigator.plugins.length)return;const M=[{type:'application/pdf',suffixes:'pdf',description:'Portable Document Format'},{type:'text/pdf',suffixes:'pdf',description:'Portable Document Format'}],N=['PDF Viewer','Chrome PDF Viewer','Chromium PDF Viewer','Microsoft Edge PDF Viewer','WebKit built-in PDF'];const nat=(v,n)=>{const g=function(){return v};Object.defineProperty(g,'toString',{value:()=>`function get ${n}() { [native code] }`});return g},nfun=(name,impl)=>{const f=function(...a){return impl.apply(this,a)};Object.defineProperty(f,'name',{value:name});Object.defineProperty(f,'toString',{value:()=>`function ${name}() { [native code] }`});return f};Object.defineProperties(PluginArray.prototype,{item:{value:nfun('item',function(i){return this[i]??null}),writable:!0,configurable:!0},namedItem:{value:nfun('namedItem',function(n){return this[n]??null}),writable:!0,configurable:!0},refresh:{value:nfun('refresh',function(){}),writable:!0,configurable:!0}});Object.defineProperties(MimeTypeArray.prototype,{item:{value:nfun('item',function(i){return this[i]??null}),writable:!0,configurable:!0},namedItem:{value:nfun('namedItem',function(n){return this[n]??null}),writable:!0,configurable:!0}});const pa=Object.create(PluginArray.prototype),ma=Object.create(MimeTypeArray.prototype);let m=0;for(let i=0;i<N.length;i++){const p=Object.create(Plugin.prototype),mt0=Object.create(MimeType.prototype),d0=M[0];Object.defineProperties(mt0,{type:{value:d0.type,enumerable:!0},suffixes:{value:d0.suffixes,enumerable:!0},description:{value:d0.description,enumerable:!0},enabledPlugin:{value:p}});const mt1=Object.create(MimeType.prototype),d1=M[1];Object.defineProperties(mt1,{type:{value:d1.type,enumerable:!0},suffixes:{value:d1.suffixes,enumerable:!0},description:{value:d1.description,enumerable:!0},enabledPlugin:{value:p}});/* indices first */Object.defineProperty(p,0,{value:mt0,enumerable:!0});Object.defineProperty(p,1,{value:mt1,enumerable:!0});/* lighter aliases next */Object.defineProperty(p,'application/pdf',{value:mt0,enumerable:!1});Object.defineProperty(p,'text/pdf',{value:mt1,enumerable:!1});Object.defineProperties(p,{description:{value:'Portable Document Format',enumerable:!0,configurable:!1,writable:!1},filename:{value:'internal-pdf-viewer',enumerable:!0,configurable:!1,writable:!1},length:{value:2,enumerable:!0,configurable:!1,writable:!1},name:{value:N[i],enumerable:!0,configurable:!1,writable:!1}});Object.defineProperty(ma,m++,{value:mt0,enumerable:!0});Object.defineProperty(ma,m++,{value:mt1,enumerable:!0});'application/pdf'in ma||Object.defineProperty(ma,'application/pdf',{value:mt0});'text/pdf'in ma||Object.defineProperty(ma,'text/pdf',{value:mt1});Object.defineProperty(pa,i,{value:p,enumerable:!0});N[i]in pa||Object.defineProperty(pa,N[i],{value:p})}Object.defineProperty(pa,'length',{value:N.length});Object.defineProperty(ma,'length',{value:m});Object.defineProperties(Navigator.prototype,{plugins:{get:nat(pa,'plugins')},mimeTypes:{get:nat(ma,'mimeTypes')}})})();"@
}

/// The script on the permission for notifications.
pub open spec fn notifications_text() -> Seq<char> {
    r#"(()=>{const a=new Function('return "prompt"');Object.defineProperty(a,'toString',{value:()=>`function get permission() { [native code] }`});Object.defineProperty(Notification,'permission',{get:a,configurable:true});const b=new Function("return function(e){if(e&&e.name==='notifications'){return Promise.resolve(Object.setPrototypeOf({state:'prompt',onchange:null},PermissionStatus.prototype))}return this.__nativeQuery__.apply(this,arguments)}")();Object.defineProperty(b,"toString",{value:()=>`function query() { [native code] }`});navigator.permissions.__nativeQuery__=navigator.permissions.query.bind(navigator.permissions);navigator.permissions.query=b})();"#@
}

/// The script on queries for permissions.
pub open spec fn permissions_query_text() -> Seq<char> {
    r#"(()=>{const map={accelerometer:"granted","background-fetch":"granted","background-sync":"granted",gyroscope:"granted",magnetometer:"granted","screen-wake-lock":"granted",camera:"prompt","display-capture":"prompt",geolocation:"prompt",microphone:"prompt",midi:"prompt",notifications:"prompt","persistent-storage":"prompt"};const native=navigator.permissions.query.bind(navigator.permissions);Object.defineProperty(navigator.permissions,"query",{value:function(p){if(p&&p.name&&map.hasOwnProperty(p.name)){return Promise.resolve(Object.setPrototypeOf({state:map[p.name],onchange:null},PermissionStatus.prototype))}return native(p)},configurable:true});const g=new Function('return "prompt"');Object.defineProperty(g,"toString",{value:()=>`function get permission() { [native code] }`});Object.defineProperty(Notification,"permission",{get:g,configurable:true})})();"#@
}

/// The script on the voices for speech.
pub open spec fn speech_text() -> Seq<char> {
    r#"(()=>{const g=globalThis||window;if(!g.speechSynthesis||!g.SpeechSynthesisVoice)return;const S=(f,n=f.name||"")=>Object.defineProperty(f,"toString",{value:function(){return"function "+n+"() { [native code] }"},configurable:!0}),D=(o,k,v)=>Object.defineProperty(o,k,{value:v,enumerable:!0});const orig=g.speechSynthesis.getVoices.bind(g.speechSynthesis),mk=(u,n,l,ls,d)=>{const v=Object.create(g.SpeechSynthesisVoice.prototype);D(v,"voiceURI",""+u),D(v,"name",""+n),D(v,"lang",""+l),D(v,"localService",!!ls),D(v,"default",!!d);return v};const EXTRA=[["Google US English","Google US English","en-US",!1,!1],["Google UK English Female","Google UK English Female","en-GB",!1,!1],["Google UK English Male","Google UK English Male","en-GB",!1,!1],["Google espa\u00f1ol","Google espa\u00f1ol","es-ES",!1,!1],["Google espa\u00f1ol de Estados Unidos","Google espa\u00f1ol de Estados Unidos","es-US",!1,!1],["Google fran\u00e7ais","Google fran\u00e7ais","fr-FR",!1,!1],["Google \u0939\u093f\u0902\u0926\u0940","Google \u0939\u093f\u0902\u0926\u0940","hi-IN",!1,!1],["Google Bahasa Indonesia","Google Bahasa Indonesia","id-ID",!1,!1],["Google Deutsch","Google Deutsch","de-DE",!1,!1],["Google italiano","Google italiano","it-IT",!1,!1],["Google \u65e5\u672c\u8a9e","Google \u65e5\u672c\u8a9e","ja-JP",!1,!1],["Google \ud55c\uad6d\uc5b4","Google \ud55c\uad6d\uc5b4","ko-KR",!1,!1],["Google Nederlands","Google Nederlands","nl-NL",!1,!1],["Google polski","Google polski","pl-PL",!1,!1],["Google portugu\u00eas do Brasil","Google portugu\u00eas do Brasil","pt-BR",!1,!1],["Google \u0440\u0443\u0441\u0441\u043a\u0438\u0439","Google \u0440\u0443\u0441\u0441\u043a\u0438\u0439","ru-RU",!1,!1],["Google \u666e\u901a\u8bdd\uff08\u4e2d\u56fd\u5927\u9646\uff09","Google \u666e\u901a\u8bdd\uff08\u4e2d\u56fd\u5927\u9646\uff09","zh-CN",!1,!1],["Google \u7cb5\u8a9e\uff08\u9999\u6e2f\uff09","Google \u7cb5\u8a9e\uff08\u9999\u6e2f\uff09","zh-HK",!1,!1],["Google \u570b\u8a9e\uff08\u81fa\u7063\uff09","Google \u570b\u8a9e\uff08\u81fa\u7063\uff09","zh-TW",!1,!1]].map(a=>mk(...a));let cache=null,shot=!1;const merge=r=>{const seen=new Set,out=[],push=v=>{const k=((v&&v.voiceURI)||"")+"::"+((v&&v.name)||"")+"::"+((v&&v.lang)||"");if(!seen.has(k)){seen.add(k);out.push(v)}};r.forEach(push),EXTRA.forEach(push);if(!out.some(v=>v.default===!0)){const i=out.findIndex(v=>((v.lang||"")+"").toLowerCase().indexOf("en")===0);if(i>=0){const x=out[i];out[i]=mk(x.voiceURI,x.name,x.lang,x.localService,!0)}}return out};const patched=function getVoices(){const real=(()=>{try{return orig()||[]}catch(e){return[]}})();if(!cache||cache.__len!==real.length){const m=merge(real);m.forEach(Object.freeze),Object.defineProperty(m,"__len",{value:real.length}),cache=Object.freeze(m.slice());if(!shot){shot=!0,queueMicrotask(()=>{try{g.speechSynthesis.dispatchEvent(new Event("voiceschanged"))}catch(e){}})}}return cache};Object.defineProperty(g.speechSynthesis,"getVoices",{value:patched,writable:!1,enumerable:!1,configurable:!0}),S(patched,"getVoices")})();"#@
}

/// The script that takes the marks of drivers away.
pub open spec fn cdp_markers_text() -> Seq<char> {
    r#"(()=>{try{if(typeof window==='undefined')return;const patterns=[/^cdc_/i,/^\$cdc_/i,/^__webdriver_/i,/^__selenium_/i,/^__driver_/i,/^_Selenium_/i,/^calledSelenium/i,/^domAutomation/i];const safeClean=(o,name)=>{if(!o||typeof o!=='object')return;try{const keys=Object.getOwnPropertyNames(o);for(const k of keys){for(const p of patterns){if(p.test(k)){try{const desc=Object.getOwnPropertyDescriptor(o,k);if(desc&&desc.configurable){delete o[k]}}catch(_){}break}}}}catch(_){}};safeClean(window,'window');if(typeof document!=='undefined')safeClean(document,'document')}catch(_){}})();"#@
}

/// The script that hides the marks of Selenium.
pub open spec fn selenium_markers_text() -> Seq<char> {
    "(()=>{try{if(typeof window==='undefined')return;const props=['$chrome_asyncScriptInfo','__webdriver_evaluate','__selenium_evaluate','__webdriver_script_function','__webdriver_script_func','__webdriver_script_fn','__fxdriver_evaluate','__driver_unwrapped','__webdriver_unwrapped','__driver_evaluate','__selenium_unwrapped','__fxdriver_unwrapped','_Selenium_IDE_Recorder','_selenium','calledSelenium','_WEBDRIVER_ELEM_CACHE','ChromeDriverw'];const hide=(o)=>{if(!o||typeof o!=='object')return;for(const p of props){try{if(p in o){const desc=Object.getOwnPropertyDescriptor(o,p);if(desc&&desc.configurable){Object.defineProperty(o,p,{get:()=>undefined,configurable:!0})}}}catch(_){}}};hide(window);if(typeof document!=='undefined')hide(document)}catch(_){}})();"@
}

/// The script on drawings, of macOS.
pub open spec fn mac_canvas_text() -> Seq<char> {
    "(()=>{const toBlob=HTMLCanvasElement.prototype.toBlob,toDataURL=HTMLCanvasElement.prototype.toDataURL,getImageData=CanvasRenderingContext2D.prototype.getImageData,noisify=function(e,t){const o={r:Math.floor(10*Math.random())-5,g:Math.floor(10*Math.random())-5,b:Math.floor(10*Math.random())-5,a:Math.floor(10*Math.random())-5},r=e.width,n=e.height,a=getImageData.apply(t,[0,0,r,n]);for(let i=0;i<r*n*4;i+=4)a.data[i]+=o.r,a.data[i+1]+=o.g,a.data[i+2]+=o.b,a.data[i+3]+=o.a;t.putImageData(a,0,0)};Object.defineProperty(HTMLCanvasElement.prototype,'toBlob',{value:function(){return noisify(this,this.getContext('2d')),toBlob.apply(this,arguments)}}),Object.defineProperty(HTMLCanvasElement.prototype,'toDataURL',{value:function(){return noisify(this,this.getContext('2d')),toDataURL.apply(this,arguments)}}),Object.defineProperty(CanvasRenderingContext2D.prototype,'getImageData',{value:function(){return noisify(this.canvas,this),getImageData.apply(this,arguments)}}); })();"@
}

/// The script on drawings, of Windows.
pub open spec fn windows_canvas_text() -> Seq<char> {
    "(()=>{const toBlob=HTMLCanvasElement.prototype.toBlob,toDataURL=HTMLCanvasElement.prototype.toDataURL,getImageData=CanvasRenderingContext2D.prototype.getImageData,noisify=function(e,t){const o={r:Math.floor(6*Math.random())-3,g:Math.floor(6*Math.random())-3,b:Math.floor(6*Math.random())-3,a:Math.floor(6*Math.random())-3},r=e.width,n=e.height,a=getImageData.apply(t,[0,0,r,n]);for(let i=0;i<r*n*4;i+=4)a.data[i]+=o.r,a.data[i+1]+=o.g,a.data[i+2]+=o.b,a.data[i+3]+=o.a;t.putImageData(a,0,0)};Object.defineProperty(HTMLCanvasElement.prototype,'toBlob',{value:function(){return noisify(this,this.getContext('2d')),toBlob.apply(this,arguments)}}),Object.defineProperty(HTMLCanvasElement.prototype,'toDataURL',{value:function(){return noisify(this,this.getContext('2d')),toDataURL.apply(this,arguments)}}),Object.defineProperty(CanvasRenderingContext2D.prototype,'getImageData',{value:function(){return noisify(this.canvas,this),getImageData.apply(this,arguments)}}); })();"@
}

/// The script on drawings, of Linux.
pub open spec fn linux_canvas_text() -> Seq<char> {
    "(()=>{const toBlob=HTMLCanvasElement.prototype.toBlob,toDataURL=HTMLCanvasElement.prototype.toDataURL,getImageData=CanvasRenderingContext2D.prototype.getImageData,noisify=function(e,t){const o={r:Math.floor(10*Math.random())-5,g:Math.floor(10*Math.random())-5,b:Math.floor(10*Math.random())-5,a:Math.floor(10*Math.random())-5},r=e.width,n=e.height,a=t.getImageData(0,0,r,n);for(let i=0;i<r*n*4;i+=4)a.data[i]+=o.r,a.data[i+1]+=o.g,a.data[i+2]+=o.b,a.data[i+3]+=o.a;t.putImageData(a,0,0)};Object.defineProperty(HTMLCanvasElement.prototype,'toBlob',{value:function(){return noisify(this,this.getContext('2d')),toBlob.apply(this,arguments)}}),Object.defineProperty(HTMLCanvasElement.prototype,'toDataURL',{value:function(){return noisify(this,this.getContext('2d')),toDataURL.apply(this,arguments)}}),Object.defineProperty(CanvasRenderingContext2D.prototype,'getImageData',{value:function(){return noisify(this.canvas,this),getImageData.apply(this,arguments)}}); })();"@
}

/// The script on graphics.
pub open spec fn graphics_text() -> Seq<char> {
    "(()=>{const config={random:{value:()=>Math.random(),item:e=>e[Math.floor(e.length*Math.random())],array:e=>new Int32Array([e[Math.floor(e.length*Math.random())],e[Math.floor(e.length*Math.random())]]),items:(e,t)=>{let r=e.length,a=Array(t),n=Array(r);for(t>r&&(t=r);t--;){let o=Math.floor(Math.random()*r);a[t]=e[o in n?n[o]:o],n[o]=--r in n?n[r]:r}return a}},spoof:{webgl:{buffer:e=>{let t=e.prototype.bufferData;Object.defineProperty(e.prototype,'bufferData',{value:function(){let e=Math.floor(10*Math.random()),r=.1*Math.random()*arguments[1][e];return arguments[1][e]+=r,t.apply(this,arguments)}})},parameter:e=>{Object.defineProperty(e.prototype,'getParameter',{value:function(){let a=new Float32Array([1,8192]);switch(arguments[0]){case 3415:return 0;case 3414:return 24;case 35661:return config.random.items([128,192,256]);case 3386:return config.random.array([8192,16384,32768]);case 36349:case 36347:return config.random.item([4096,8192]);case 34047:case 34921:return config.random.items([2,4,8,16]);case 7937:case 33901:case 33902:return a;case 34930:case 36348:case 35660:return config.random.item([16,32,64]);case 34076:case 34024:case 3379:return config.random.item([16384,32768]);case 3413:case 3412:case 3411:case 3410:case 34852:return config.random.item([2,4,8,16]);default:return config.random.item([0,2,4,8,16,32,64,128,256,512,1024,2048,4096])}}})}}}};config.spoof.webgl.buffer(WebGLRenderingContext);config.spoof.webgl.buffer(WebGL2RenderingContext);config.spoof.webgl.parameter(WebGLRenderingContext);config.spoof.webgl.parameter(WebGL2RenderingContext);const rand={noise:()=>Math.floor(Math.random()+(Math.random()<Math.random()?-1:1)*Math.random()),sign:()=>[-1,-1,-1,-1,-1,-1,1,-1,-1,-1][Math.floor(10*Math.random())]};Object.defineProperty(HTMLElement.prototype,'offsetHeight',{get:function(){let e=Math.floor(this.getBoundingClientRect().height);return e&&1===rand.sign()?e+rand.noise():e}});Object.defineProperty(HTMLElement.prototype,'offsetWidth',{get:function(){let e=Math.floor(this.getBoundingClientRect().width);return e&&1===rand.sign()?e+rand.noise():e}});const ctx={BUFFER:null,getChannelData:e=>{let t=e.prototype.getChannelData;Object.defineProperty(e.prototype,'getChannelData',{value:function(){let d=t.apply(this,arguments);if(ctx.BUFFER!==d){ctx.BUFFER=d;for(let i=0;i<d.length;i+=100){d[Math.floor(Math.random()*i)]+=1e-7*Math.random()}}return d}})},createAnalyser:e=>{let t=e.prototype.__proto__.createAnalyser;Object.defineProperty(e.prototype.__proto__,'createAnalyser',{value:function(){let a=t.apply(this,arguments),r=a.__proto__.getFloatFrequencyData;Object.defineProperty(a.__proto__,'getFloatFrequencyData',{value:function(){let arr=r.apply(this,arguments);for(let i=0;i<arguments[0].length;i+=100){arguments[0][Math.floor(Math.random()*i)]+=.1*Math.random()}return arr}});return a}})} };ctx.getChannelData(AudioBuffer);ctx.createAnalyser(AudioContext);ctx.getChannelData(OfflineAudioContext);ctx.createAnalyser(OfflineAudioContext);window.webkitRTCPeerConnection=void 0;window.RTCPeerConnection=void 0;window.MediaStreamTrack=void 0; })();"@
}

/// The script on the codecs for media.
pub open spec fn codecs_text() -> Seq<char> {
    r#"(()=>{try{const a={"audio/ogg":"probably","audio/mp4":"probably","audio/webm":"probably","audio/wav":"probably"},v={"video/webm":"probably","video/mp4":"probably","video/ogg":"probably"};const c={...a,...v},f=s=>{const[t]=s.split(";");if(t==="video/mp4"&&s.includes("avc1.42E01E"))return{name:t,state:"probably"};const e=Object.entries(c).find(([k])=>k===t);return e?{name:e[0],state:e[1]}:undefined};const h=HTMLMediaElement.prototype,p=h.canPlayType;Object.defineProperty(h,"canPlayType",{value:function(t){if(!t)return p.apply(this,arguments);const r=f(t);return r?r.state:p.apply(this,arguments)},configurable:!0});}catch(e){console.warn(e);}})();"#@
}

/// The script that claims a touch screen.
pub open spec fn touch_text() -> Seq<char> {
    "(()=>{const one=()=>1;Object.defineProperty(one,'toString',{value:()=>`function get maxTouchPoints() { [native code] }`});Object.defineProperties(Navigator.prototype,{maxTouchPoints:{get:one,configurable:true},msMaxTouchPoints:{get:one,configurable:true}});try{window.TouchEvent=class TouchEvent extends UIEvent{};document.createEvent=(type)=>(type==='TouchEvent'?new TouchEvent('touchstart'):(Document.prototype.createEvent.call(document,type)));if(!('ontouchstart'in window)){Object.defineProperty(Window.prototype,'ontouchstart',{value:null,writable:true,enumerable:true,configurable:true})}}catch{}})();"@
}

/// The script that claims that there is no touch screen.
pub open spec fn no_touch_text() -> Seq<char> {
    r#"(()=>{const zero=()=>0;Object.defineProperty(zero,'toString',{value:()=>`function get maxTouchPoints() { [native code] }`});Object.defineProperties(Navigator.prototype,{maxTouchPoints:{get:zero,configurable:true},msMaxTouchPoints:{get:zero,configurable:true}});try{delete window.TouchEvent;Object.defineProperty(window,'TouchEvent',{get:()=>{throw new ReferenceError("TouchEvent is not defined")},configurable:true});document.createEvent=(type)=>{if(type==='TouchEvent'){throw new Error('NotSupportedError')}return Document.prototype.createEvent.call(document,type)};if('ontouchstart'in window){delete window.ontouchstart}if('ontouchstart'in Window.prototype){delete Window.prototype.ontouchstart;Object.defineProperty(Window.prototype,'ontouchstart',{value:undefined,writable:false,enumerable:false,configurable:false})}}catch{}})();"#@
}

/// The script on the labels of cameras, up to the label.
pub open spec fn labels_start() -> Seq<char> {
    r#"(()=>{try{if(typeof navigator==="undefined")return;const n=navigator,md=n.mediaDevices;if(!md)return;const o=md.enumerateDevices;if(typeof o!=="function")return;const e=o.bind(md);const nat=fn=>{try{Object.defineProperty(fn,"toString",{value:()=>`function get label() { [native code] }`,configurable:!0})}catch(_ ){}return fn};const wrap=function(){return e().then(d=>d.map(v=>{try{if(!v||typeof v!=="object")return v;let l=v.label;if(typeof l==="string"){if(l.startsWith("Fake "))l=l.replace(/^Fake\s+/i,"");if(v.kind==="videoinput"&&/^fake(_device)?/i.test(l))l=""#@
}

/// The script on the labels of cameras, behind the label.
pub open spec fn labels_end() -> Seq<char> {
    r#"";const esc=(""+l).replace(/\\/g,"\\\\").replace(/"/g,"\\\"");const g=nat(new Function('return "'+esc+'"'));try{Object.defineProperty(v,"label",{get:g,configurable:!0})}catch(_ ){}}}catch(_ ){}return v}))};try{Object.defineProperty(md,"enumerateDevices",{value:wrap,writable:!0,configurable:!0})}catch(_ ){try{md.enumerateDevices=wrap}catch(_ ){}}}catch(_ ){}})();"#@
}

/// The script on the length of the history, up to the length.
pub open spec fn history_start() -> Seq<char> {
    "(()=>{const h=new Function('return "@
}

/// The script on the length of the history, behind the length.
pub open spec fn history_end() -> Seq<char> {
    "');Object.defineProperty(h,'toString',{value:()=>`function get length() { [native code] }`});Object.defineProperty(History.prototype,'length',{get:h,configurable:!0});})();"@
}

/// The script on the number of processors, up to the number.
pub open spec fn processors_start() -> Seq<char> {
    "(()=>{const c="@
}

/// The script on the number of processors, behind the number.
pub open spec fn processors_end() -> Seq<char> {
    ";function hardwareConcurrency(){return c}hardwareConcurrency.toString=()=>'function get hardwareConcurrency() { [native code] }';const s=()=>{try{Object.defineProperty(Navigator.prototype,'hardwareConcurrency',{get:hardwareConcurrency,enumerable:!0,configurable:!0})}catch{}try{typeof WorkerNavigator !== 'undefined' && Object.defineProperty(WorkerNavigator.prototype,'hardwareConcurrency',{get:hardwareConcurrency,enumerable:!0,configurable:!0})}catch{}};s();})();"@
}

/// The script on the graphics card, behind its name.
pub open spec fn graphics_card_end() -> Seq<char> {
    ",f=p=>p===37445?v:p===37446?r:null;for(const k of['WebGLRenderingContext','WebGL2RenderingContext']){const o=self[k]&&self[k].prototype&&self[k].prototype.getParameter;if(o)Object.defineProperty(self[k].prototype,'getParameter',{value:function(p){const s=f(p);return s??o.call(this,p)},configurable:!0})}}catch(_){ }"@
}

/// The script of a worker on the number of processors, up to the number.
pub open spec fn worker_processors_start() -> Seq<char> {
    "try{Object.defineProperty(navigator,'hardwareConcurrency',{get:()=>"@
}

/// The same between the two places of the number.
pub open spec fn worker_processors_middle() -> Seq<char> {
    ",enumerable:!0,configurable:!0})}catch(e){try{navigator.hardwareConcurrency="@
}

/// The same behind the number.
pub open spec fn worker_processors_end() -> Seq<char> {
    "}catch(_){}}"@
}

/// The script on workers, behind what they run first.
pub open spec fn worker_end() -> Seq<char> {
    r#"";const mk=C=>function(u,...a){try{const o=a[0];if(o&&typeof o=="object"&&o.type=="module")return new C(u,...a)}catch(_){ }let U;try{U=new URL(u,location.href)}catch(_){return new C(u,...a)}if(U.protocol!=="http:"&&U.protocol!=="https:")return new C(u,...a);if(U.origin!==location.origin)return new C(u,...a);const abs=U.toString(),b="(()=>{"+P+";try{importScripts("+JSON.stringify(abs)+")}catch(_){}})();";return new C(URL.createObjectURL(new Blob([b],{type:"text/javascript"})),...a)};window.Worker&&(window.Worker=mk(window.Worker));window.SharedWorker&&(window.SharedWorker=mk(window.SharedWorker))}catch(_){}})();"#@
}

/// The script on the memory, up to its size.
pub open spec fn memory_start() -> Seq<char> {
    "(()=>{try{if(typeof navigator==='undefined')return;const m="@
}

/// The script on the memory, behind its size.
pub open spec fn memory_end() -> Seq<char> {
    ";const g=function(){return m};try{Object.defineProperty(g,'toString',{value:()=>`function get deviceMemory() { [native code] }`})}catch(_){}try{if('deviceMemory'in Navigator.prototype||!('deviceMemory'in navigator)){Object.defineProperty(Navigator.prototype,'deviceMemory',{get:g,enumerable:!0,configurable:!0})}}catch(_){}try{if(typeof WorkerNavigator!=='undefined'&&('deviceMemory'in WorkerNavigator.prototype||!('deviceMemory'in navigator))){Object.defineProperty(WorkerNavigator.prototype,'deviceMemory',{get:g,enumerable:!0,configurable:!0})}}catch(_){}}catch(_){}})();"@
}

/// The script on the format of drawings, up to the format.
pub open spec fn canvas_format_start() -> Seq<char> {
    "(() =>{class WGSLanguageFeatures{constructor(){this.size=4}}class GPU{constructor(){this.wgslLanguageFeatures=new WGSLanguageFeatures()}requestAdapter(){return Promise.resolve({requestDevice:()=>Promise.resolve({})})}getPreferredCanvasFormat(){return'"@
}

/// The script on the format of drawings, behind the format.
pub open spec fn canvas_format_end() -> Seq<char> {
    "'}}const _gpu=new GPU(),_g=()=>_gpu;Object.defineProperty(_g,'toString',{value:()=>`function get gpu() { [native code] }`,configurable:!0});Object.defineProperty(Navigator.prototype,'gpu',{get:_g,configurable:!0,enumerable:!1});if(typeof WorkerNavigator!=='undefined'){Object.defineProperty(WorkerNavigator.prototype,'gpu',{get:_g,configurable:!0,enumerable:!1})}})();"@
}

/// The script on the graphics adapter, up to its maker.
pub open spec fn adapter_start() -> Seq<char> {
    r#"(()=>{try{const g=navigator&&navigator.gpu;if(!g||typeof g.requestAdapter!=="function")return;const def=(o,m)=>Object.defineProperties(o,Object.fromEntries(Object.entries(m).map(([k,v])=>[k,{value:v,enumerable:!0,configurable:!0}]))),orig=g.requestAdapter.bind(g),I={"#@
}

/// The same between the maker and the limits.
pub open spec fn adapter_middle() -> Seq<char> {
    "},M={"@
}

/// The same behind the limits.
pub open spec fn adapter_end() -> Seq<char> {
    "};g.requestAdapter=async opts=>{const a=await orig(opts);if(!a||!a.limits)return a;const lim=a.limits;try{a.info&&def(a.info,I)}catch(_){}try{for(const k of Object.getOwnPropertyNames(lim))if(!(k in M))delete lim[k];def(lim,M)}catch(_){}return a}}catch(_){}})();"@
}

/// The script on the screen, behind the ratio of its pixels.
pub open spec fn screen_end() -> Seq<char> {
    "');[iw,ih,ow,oh,sw,sh,aw,ah,sx,sy,cd,pd,dpr].forEach((f,i)=>Object.defineProperty(f,'toString',{value:()=>`function get ${['innerWidth','innerHeight','outerWidth','outerHeight','width','height','availWidth','availHeight','screenX','screenY','colorDepth','pixelDepth','devicePixelRatio'][i]}() { [native code] }`}));Object.defineProperty(window,'innerWidth',{get:iw,configurable:!0});Object.defineProperty(window,'innerHeight',{get:ih,configurable:!0});Object.defineProperty(window,'outerWidth',{get:ow,configurable:!0});Object.defineProperty(window,'outerHeight',{get:oh,configurable:!0});Object.defineProperty(window,'screenX',{get:sx,configurable:!0});Object.defineProperty(window,'screenY',{get:sy,configurable:!0});Object.defineProperty(window,'devicePixelRatio',{get:dpr,configurable:!0});Object.defineProperty(Screen.prototype,'width',{get:sw,configurable:!0});Object.defineProperty(Screen.prototype,'height',{get:sh,configurable:!0});Object.defineProperty(Screen.prototype,'availWidth',{get:aw,configurable:!0});Object.defineProperty(Screen.prototype,'availHeight',{get:ah,configurable:!0});Object.defineProperty(Screen.prototype,'colorDepth',{get:cd,configurable:!0});Object.defineProperty(Screen.prototype,'pixelDepth',{get:pd,configurable:!0});})();"@
}

/// The script on the data of the user agent, up to the architecture.
pub open spec fn agent_data_start() -> Seq<char> {
    "(()=>{if(typeof NavigatorUAData==='undefined')window.NavigatorUAData=function NavigatorUAData(){};const p=NavigatorUAData.prototype,v=Object.create(p),d={architecture:'"@
}

/// The same between the platform and the version of the browser.
pub open spec fn agent_data_middle() -> Seq<char> {
    "'};Object.defineProperties(v,{brands:{value:d.brands,enumerable:true},mobile:{value:d.mobile,enumerable:true},platform:{value:d.platform,enumerable:true}});Object.defineProperties(p,{brands:{get:function brands(){return this.brands}},mobile:{get:function mobile(){return this.mobile}},platform:{get:function platform(){return this.platform}}});function getHighEntropyValues(keys){keys=Array.isArray(keys)?keys:[];var out={};for(var i=0;i<keys.length;i++){var k=keys[i];if(k==='architecture'||k==='bitness'||k==='model'||k==='platformVersion'||k==='uaFullVersion'||k==='fullVersionList'){out[k]=(k==='uaFullVersion'?'"@
}

/// The same behind the version of the browser.
pub open spec fn agent_data_end() -> Seq<char> {
    "':d[k]);}}return Promise.resolve(Object.assign({brands:d.brands,mobile:d.mobile,platform:d.platform},out))};Object.defineProperty(p,'getHighEntropyValues',{value:getHighEntropyValues});function toJSON(){return{brands:this.brands,mobile:this.mobile,platform:this.platform}}Object.defineProperty(p,'toJSON',{value:toJSON});const f=()=>v;Object.defineProperty(f,'toString',{value:()=>`function get userAgentData() { [native code] }`});Object.defineProperty(Navigator.prototype,'userAgentData',{get:f,configurable:!0});})();"@
}

} // verus!
