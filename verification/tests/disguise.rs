use chromiumoxide::page::call::{Page, Param, Step};
use chromiumoxide::page::disguise::{
    stealth_script, EmulatedViewport, EmulationSettings, StealthFingerprint, StealthOs,
    StealthTier,
};
use chromiumoxide::page::emulation::{emulation_possible, emulation_script};
use serde_json::Value;
use spider_fingerprint::profiles::gpu::{
    GpuProfile, GPU_PROFILES_ANDROID, GPU_PROFILES_IPHONE, GPU_PROFILES_LINUX, GPU_PROFILES_MAC,
    GPU_PROFILES_WINDOWS,
};

const REMOVE_CHROME_TEXT: &str = "(()=>{if('chrome' in window){delete window.chrome}; })();";
const HIDE_CHROME_TEXT: &str = "(()=>{const d=Object.defineProperty,c=window.chrome||{};if(c.csi&&c.loadTimes){return}function np(){return{}}const m={getFieldTrial:function getFieldTrial(){},getHistogram:function getHistogram(){},getVariationParams:function getVariationParams(){},recordBoolean:function recordBoolean(){},recordCount:function recordCount(){}},tt={nowInMicroseconds:function nowInMicroseconds(){}},fns={app:{get:np},csi:function csi(){},loadTimes:function loadTimes(){},getVariableValue:function getVariableValue(){},send:function send(){}};for(const[k,v]of Object.entries(fns))'get'in v?d(c,k,{get:v.get,enumerable:!0,configurable:!0}):(v.toString=()=>`function ${k}() { [native code] }`,d(c,k,{value:v,enumerable:!0,configurable:!0}));d(c,'metricsPrivate',{value:m,enumerable:!0});d(c,'timeTicks',{value:tt,enumerable:!0});d(c,'runtime',{get:np,set:np,enumerable:!0,configurable:!0});d(window,'chrome',{value:c,writable:!0,enumerable:!0})})();";
const HIDE_CONSOLE_TEXT: &str = "['log','warn','error','info','debug','table', 'dir'].forEach((method)=>{console[method]=()=>{}});";
const NAVIGATOR_TEXT: &str = r#"(()=>{try{if(typeof navigator==='undefined')return;if('pdfViewerEnabled'in navigator)return;const p=Object.getPrototypeOf(navigator);if(!p)return;const g=function(){return!0};try{Object.defineProperty(g,'toString',{value:()=>"function get pdfViewerEnabled() { [native code] }",configurable:!0})}catch(_){}try{Object.defineProperty(p,'pdfViewerEnabled',{get:g,configurable:!0})}catch(_){} }catch(_){}})();"#;
const HIDE_WEBDRIVER_TEXT: &str = "(()=>{if(!navigator.webdriver){return}; const r=Function.prototype.toString,g=()=>false;Function.prototype.toString=function(){return this===g?'function get webdriver() { [native code] }':r.call(this)};Object.defineProperty(Navigator.prototype,'webdriver',{get:g,enumerable:false,configurable:true})})();";
const DISABLE_DIALOGS_TEXT: &str = "(()=>{const a=window.alert.toString(),c=window.confirm.toString(),p=window.prompt.toString();window.alert=function alert(){};Object.defineProperty(window.alert,'toString',{value:()=>a,configurable:true});window.confirm=function confirm(){return true};Object.defineProperty(window.confirm,'toString',{value:()=>c,configurable:true});window.prompt=function prompt(){return ''};Object.defineProperty(window.prompt,'toString',{value:()=>p,configurable:true});})();";
const PLUGINS_TEXT: &str = "(()=>{if('plugins' in navigator && navigator.plugins.length){return};const m=[{type:'application/pdf',suffixes:'pdf',description:'Portable Document Format'},{type:'text/pdf',suffixes:'pdf',description:'Portable Document Format'}],names=['PDF Viewer','Chrome PDF Viewer','Chromium PDF Viewer','Microsoft Edge PDF Viewer','WebKit built-in PDF'],plugins=[],mimes=[];names.forEach(name=>{const plugin=Object.create(Plugin.prototype);Object.defineProperties(plugin,{name:{value:name},description:{value:'Portable Document Format'},filename:{value:'internal-pdf-viewer'},length:{value:2}});const mt1=Object.create(MimeType.prototype),mt2=Object.create(MimeType.prototype);Object.defineProperties(mt1,{type:{value:m[0].type},suffixes:{value:m[0].suffixes},description:{value:m[0].description},enabledPlugin:{value:plugin}});Object.defineProperties(mt2,{type:{value:m[1].type},suffixes:{value:m[1].suffixes},description:{value:m[1].description},enabledPlugin:{value:plugin}});plugin[0]=mt1;plugin[1]=mt2;mimes.push(mt1,mt2);plugins.push(plugin)});Object.defineProperties(PluginArray.prototype,{item:{value:function(i){return this[i]||null}},namedItem:{value:function(n){return this[n]||null}},toJSON:{value:function(){return[...Array(this.length)].map((_,i)=>this[i])}}});Object.defineProperties(MimeTypeArray.prototype,{item:{value:function(i){return this[i]||null}},namedItem:{value:function(n){return this[n]||null}}});const pa=Object.create(PluginArray.prototype),ma=Object.create(MimeTypeArray.prototype);plugins.forEach((p,i)=>{Object.defineProperty(pa,i,{value:p,enumerable:true});Object.defineProperty(pa,p.name,{value:p})});Object.defineProperty(pa,'length',{value:plugins.length,enumerable:false});const seen=new Set();mimes.forEach((mt,i)=>{Object.defineProperty(ma,i,{value:mt,enumerable:true});if(!seen.has(mt.type)){seen.add(mt.type);Object.defineProperty(ma,mt.type,{value:mt})}});Object.defineProperty(ma,'length',{value:mimes.length,enumerable:false});const g=(v,n)=>{const f=()=>v;Object.defineProperty(f,'toString',{value:()=>`function get ${n}() { [native code] }`});return f};Object.defineProperties(Navigator.prototype,{plugins:{get:g(pa,'plugins')},mimeTypes:{get:g(ma,'mimeTypes')}})})();";
const CHROME_PLUGINS_TEXT: &str = "(()=>{if('plugins'in navigator&&navigator.plugins.length)return;const M=[{type:'application/pdf',suffixes:'pdf',description:'Portable Document Format'},{type:'text/pdf',suffixes:'pdf',description:'Portable Document Format'}],N=['PDF Viewer','Chrome PDF Viewer','Chromium PDF Viewer','Microsoft Edge PDF Viewer','WebKit built-in PDF'];const nat=(v,n)=>{const g=function(){return v};Object.defineProperty(g,'toString',{value:()=>`function get ${n}() { [native code] }`});return g},nfun=(name,impl)=>{const f=function(...a){return impl.apply(this,a)};Object.defineProperty(f,'name',{value:name});Object.defineProperty(f,'toString',{value:()=>`function ${name}() { [native code] }`});return f};Object.defineProperties(PluginArray.prototype,{item:{value:nfun('item',function(i){return this[i]??null}),writable:!0,configurable:!0},namedItem:{value:nfun('namedItem',function(n){return this[n]??null}),writable:!0,configurable:!0},refresh:{value:nfun('refresh',function(){}),writable:!0,configurable:!0}});Object.defineProperties(MimeTypeArray.prototype,{item:{value:nfun('item',function(i){return this[i]??null}),writable:!0,configurable:!0},namedItem:{value:nfun('namedItem',function(n){return this[n]??null}),writable:!0,configurable:!0}});const pa=Object.create(PluginArray.prototype),ma=Object.create(MimeTypeArray.prototype);let m=0;for(let i=0;i<N.length;i++){const p=Object.create(Plugin.prototype),mt0=Object.create(MimeType.prototype),d0=M[0];Object.defineProperties(mt0,{type:{value:d0.type,enumerable:!0},suffixes:{value:d0.suffixes,enumerable:!0},description:{value:d0.description,enumerable:!0},enabledPlugin:{value:p}});const mt1=Object.create(MimeType.prototype),d1=M[1];Object.defineProperties(mt1,{type:{value:d1.type,enumerable:!0},suffixes:{value:d1.suffixes,enumerable:!0},description:{value:d1.description,enumerable:!0},enabledPlugin:{value:p}});/* indices first */Object.defineProperty(p,0,{value:mt0,enumerable:!0});Object.defineProperty(p,1,{value:mt1,enumerable:!0});/* lighter aliases next */Object.defineProperty(p,'application/pdf',{value:mt0,enumerable:!1});Object.defineProperty(p,'text/pdf',{value:mt1,enumerable:!1});Object.defineProperties(p,{description:{value:'Portable Document Format',enumerable:!0,configurable:!1,writable:!1},filename:{value:'internal-pdf-viewer',enumerable:!0,configurable:!1,writable:!1},length:{value:2,enumerable:!0,configurable:!1,writable:!1},name:{value:N[i],enumerable:!0,configurable:!1,writable:!1}});Object.defineProperty(ma,m++,{value:mt0,enumerable:!0});Object.defineProperty(ma,m++,{value:mt1,enumerable:!0});'application/pdf'in ma||Object.defineProperty(ma,'application/pdf',{value:mt0});'text/pdf'in ma||Object.defineProperty(ma,'text/pdf',{value:mt1});Object.defineProperty(pa,i,{value:p,enumerable:!0});N[i]in pa||Object.defineProperty(pa,N[i],{value:p})}Object.defineProperty(pa,'length',{value:N.length});Object.defineProperty(ma,'length',{value:m});Object.defineProperties(Navigator.prototype,{plugins:{get:nat(pa,'plugins')},mimeTypes:{get:nat(ma,'mimeTypes')}})})();";
const NOTIFICATIONS_TEXT: &str = r#"(()=>{const a=new Function('return "prompt"');Object.defineProperty(a,'toString',{value:()=>`function get permission() { [native code] }`});Object.defineProperty(Notification,'permission',{get:a,configurable:true});const b=new Function("return function(e){if(e&&e.name==='notifications'){return Promise.resolve(Object.setPrototypeOf({state:'prompt',onchange:null},PermissionStatus.prototype))}return this.__nativeQuery__.apply(this,arguments)}")();Object.defineProperty(b,"toString",{value:()=>`function query() { [native code] }`});navigator.permissions.__nativeQuery__=navigator.permissions.query.bind(navigator.permissions);navigator.permissions.query=b})();"#;
const PERMISSIONS_QUERY_TEXT: &str = r#"(()=>{const map={accelerometer:"granted","background-fetch":"granted","background-sync":"granted",gyroscope:"granted",magnetometer:"granted","screen-wake-lock":"granted",camera:"prompt","display-capture":"prompt",geolocation:"prompt",microphone:"prompt",midi:"prompt",notifications:"prompt","persistent-storage":"prompt"};const native=navigator.permissions.query.bind(navigator.permissions);Object.defineProperty(navigator.permissions,"query",{value:function(p){if(p&&p.name&&map.hasOwnProperty(p.name)){return Promise.resolve(Object.setPrototypeOf({state:map[p.name],onchange:null},PermissionStatus.prototype))}return native(p)},configurable:true});const g=new Function('return "prompt"');Object.defineProperty(g,"toString",{value:()=>`function get permission() { [native code] }`});Object.defineProperty(Notification,"permission",{get:g,configurable:true})})();"#;
const SPEECH_TEXT: &str = r#"(()=>{const g=globalThis||window;if(!g.speechSynthesis||!g.SpeechSynthesisVoice)return;const S=(f,n=f.name||"")=>Object.defineProperty(f,"toString",{value:function(){return"function "+n+"() { [native code] }"},configurable:!0}),D=(o,k,v)=>Object.defineProperty(o,k,{value:v,enumerable:!0});const orig=g.speechSynthesis.getVoices.bind(g.speechSynthesis),mk=(u,n,l,ls,d)=>{const v=Object.create(g.SpeechSynthesisVoice.prototype);D(v,"voiceURI",""+u),D(v,"name",""+n),D(v,"lang",""+l),D(v,"localService",!!ls),D(v,"default",!!d);return v};const EXTRA=[["Google US English","Google US English","en-US",!1,!1],["Google UK English Female","Google UK English Female","en-GB",!1,!1],["Google UK English Male","Google UK English Male","en-GB",!1,!1],["Google espa\u00f1ol","Google espa\u00f1ol","es-ES",!1,!1],["Google espa\u00f1ol de Estados Unidos","Google espa\u00f1ol de Estados Unidos","es-US",!1,!1],["Google fran\u00e7ais","Google fran\u00e7ais","fr-FR",!1,!1],["Google \u0939\u093f\u0902\u0926\u0940","Google \u0939\u093f\u0902\u0926\u0940","hi-IN",!1,!1],["Google Bahasa Indonesia","Google Bahasa Indonesia","id-ID",!1,!1],["Google Deutsch","Google Deutsch","de-DE",!1,!1],["Google italiano","Google italiano","it-IT",!1,!1],["Google \u65e5\u672c\u8a9e","Google \u65e5\u672c\u8a9e","ja-JP",!1,!1],["Google \ud55c\uad6d\uc5b4","Google \ud55c\uad6d\uc5b4","ko-KR",!1,!1],["Google Nederlands","Google Nederlands","nl-NL",!1,!1],["Google polski","Google polski","pl-PL",!1,!1],["Google portugu\u00eas do Brasil","Google portugu\u00eas do Brasil","pt-BR",!1,!1],["Google \u0440\u0443\u0441\u0441\u043a\u0438\u0439","Google \u0440\u0443\u0441\u0441\u043a\u0438\u0439","ru-RU",!1,!1],["Google \u666e\u901a\u8bdd\uff08\u4e2d\u56fd\u5927\u9646\uff09","Google \u666e\u901a\u8bdd\uff08\u4e2d\u56fd\u5927\u9646\uff09","zh-CN",!1,!1],["Google \u7cb5\u8a9e\uff08\u9999\u6e2f\uff09","Google \u7cb5\u8a9e\uff08\u9999\u6e2f\uff09","zh-HK",!1,!1],["Google \u570b\u8a9e\uff08\u81fa\u7063\uff09","Google \u570b\u8a9e\uff08\u81fa\u7063\uff09","zh-TW",!1,!1]].map(a=>mk(...a));let cache=null,shot=!1;const merge=r=>{const seen=new Set,out=[],push=v=>{const k=((v&&v.voiceURI)||"")+"::"+((v&&v.name)||"")+"::"+((v&&v.lang)||"");if(!seen.has(k)){seen.add(k);out.push(v)}};r.forEach(push),EXTRA.forEach(push);if(!out.some(v=>v.default===!0)){const i=out.findIndex(v=>((v.lang||"")+"").toLowerCase().indexOf("en")===0);if(i>=0){const x=out[i];out[i]=mk(x.voiceURI,x.name,x.lang,x.localService,!0)}}return out};const patched=function getVoices(){const real=(()=>{try{return orig()||[]}catch(e){return[]}})();if(!cache||cache.__len!==real.length){const m=merge(real);m.forEach(Object.freeze),Object.defineProperty(m,"__len",{value:real.length}),cache=Object.freeze(m.slice());if(!shot){shot=!0,queueMicrotask(()=>{try{g.speechSynthesis.dispatchEvent(new Event("voiceschanged"))}catch(e){}})}}return cache};Object.defineProperty(g.speechSynthesis,"getVoices",{value:patched,writable:!1,enumerable:!1,configurable:!0}),S(patched,"getVoices")})();"#;
const CDP_MARKERS_TEXT: &str = r#"(()=>{try{if(typeof window==='undefined')return;const patterns=[/^cdc_/i,/^\$cdc_/i,/^__webdriver_/i,/^__selenium_/i,/^__driver_/i,/^_Selenium_/i,/^calledSelenium/i,/^domAutomation/i];const safeClean=(o,name)=>{if(!o||typeof o!=='object')return;try{const keys=Object.getOwnPropertyNames(o);for(const k of keys){for(const p of patterns){if(p.test(k)){try{const desc=Object.getOwnPropertyDescriptor(o,k);if(desc&&desc.configurable){delete o[k]}}catch(_){}break}}}}catch(_){}};safeClean(window,'window');if(typeof document!=='undefined')safeClean(document,'document')}catch(_){}})();"#;
const SELENIUM_MARKERS_TEXT: &str = "(()=>{try{if(typeof window==='undefined')return;const props=['$chrome_asyncScriptInfo','__webdriver_evaluate','__selenium_evaluate','__webdriver_script_function','__webdriver_script_func','__webdriver_script_fn','__fxdriver_evaluate','__driver_unwrapped','__webdriver_unwrapped','__driver_evaluate','__selenium_unwrapped','__fxdriver_unwrapped','_Selenium_IDE_Recorder','_selenium','calledSelenium','_WEBDRIVER_ELEM_CACHE','ChromeDriverw'];const hide=(o)=>{if(!o||typeof o!=='object')return;for(const p of props){try{if(p in o){const desc=Object.getOwnPropertyDescriptor(o,p);if(desc&&desc.configurable){Object.defineProperty(o,p,{get:()=>undefined,configurable:!0})}}}catch(_){}}};hide(window);if(typeof document!=='undefined')hide(document)}catch(_){}})();";
const MAC_CANVAS_TEXT: &str = "(()=>{const toBlob=HTMLCanvasElement.prototype.toBlob,toDataURL=HTMLCanvasElement.prototype.toDataURL,getImageData=CanvasRenderingContext2D.prototype.getImageData,noisify=function(e,t){const o={r:Math.floor(10*Math.random())-5,g:Math.floor(10*Math.random())-5,b:Math.floor(10*Math.random())-5,a:Math.floor(10*Math.random())-5},r=e.width,n=e.height,a=getImageData.apply(t,[0,0,r,n]);for(let i=0;i<r*n*4;i+=4)a.data[i]+=o.r,a.data[i+1]+=o.g,a.data[i+2]+=o.b,a.data[i+3]+=o.a;t.putImageData(a,0,0)};Object.defineProperty(HTMLCanvasElement.prototype,'toBlob',{value:function(){return noisify(this,this.getContext('2d')),toBlob.apply(this,arguments)}}),Object.defineProperty(HTMLCanvasElement.prototype,'toDataURL',{value:function(){return noisify(this,this.getContext('2d')),toDataURL.apply(this,arguments)}}),Object.defineProperty(CanvasRenderingContext2D.prototype,'getImageData',{value:function(){return noisify(this.canvas,this),getImageData.apply(this,arguments)}}); })();";
const WINDOWS_CANVAS_TEXT: &str = "(()=>{const toBlob=HTMLCanvasElement.prototype.toBlob,toDataURL=HTMLCanvasElement.prototype.toDataURL,getImageData=CanvasRenderingContext2D.prototype.getImageData,noisify=function(e,t){const o={r:Math.floor(6*Math.random())-3,g:Math.floor(6*Math.random())-3,b:Math.floor(6*Math.random())-3,a:Math.floor(6*Math.random())-3},r=e.width,n=e.height,a=getImageData.apply(t,[0,0,r,n]);for(let i=0;i<r*n*4;i+=4)a.data[i]+=o.r,a.data[i+1]+=o.g,a.data[i+2]+=o.b,a.data[i+3]+=o.a;t.putImageData(a,0,0)};Object.defineProperty(HTMLCanvasElement.prototype,'toBlob',{value:function(){return noisify(this,this.getContext('2d')),toBlob.apply(this,arguments)}}),Object.defineProperty(HTMLCanvasElement.prototype,'toDataURL',{value:function(){return noisify(this,this.getContext('2d')),toDataURL.apply(this,arguments)}}),Object.defineProperty(CanvasRenderingContext2D.prototype,'getImageData',{value:function(){return noisify(this.canvas,this),getImageData.apply(this,arguments)}}); })();";
const LINUX_CANVAS_TEXT: &str = "(()=>{const toBlob=HTMLCanvasElement.prototype.toBlob,toDataURL=HTMLCanvasElement.prototype.toDataURL,getImageData=CanvasRenderingContext2D.prototype.getImageData,noisify=function(e,t){const o={r:Math.floor(10*Math.random())-5,g:Math.floor(10*Math.random())-5,b:Math.floor(10*Math.random())-5,a:Math.floor(10*Math.random())-5},r=e.width,n=e.height,a=t.getImageData(0,0,r,n);for(let i=0;i<r*n*4;i+=4)a.data[i]+=o.r,a.data[i+1]+=o.g,a.data[i+2]+=o.b,a.data[i+3]+=o.a;t.putImageData(a,0,0)};Object.defineProperty(HTMLCanvasElement.prototype,'toBlob',{value:function(){return noisify(this,this.getContext('2d')),toBlob.apply(this,arguments)}}),Object.defineProperty(HTMLCanvasElement.prototype,'toDataURL',{value:function(){return noisify(this,this.getContext('2d')),toDataURL.apply(this,arguments)}}),Object.defineProperty(CanvasRenderingContext2D.prototype,'getImageData',{value:function(){return noisify(this.canvas,this),getImageData.apply(this,arguments)}}); })();";
const GRAPHICS_TEXT: &str = "(()=>{const config={random:{value:()=>Math.random(),item:e=>e[Math.floor(e.length*Math.random())],array:e=>new Int32Array([e[Math.floor(e.length*Math.random())],e[Math.floor(e.length*Math.random())]]),items:(e,t)=>{let r=e.length,a=Array(t),n=Array(r);for(t>r&&(t=r);t--;){let o=Math.floor(Math.random()*r);a[t]=e[o in n?n[o]:o],n[o]=--r in n?n[r]:r}return a}},spoof:{webgl:{buffer:e=>{let t=e.prototype.bufferData;Object.defineProperty(e.prototype,'bufferData',{value:function(){let e=Math.floor(10*Math.random()),r=.1*Math.random()*arguments[1][e];return arguments[1][e]+=r,t.apply(this,arguments)}})},parameter:e=>{Object.defineProperty(e.prototype,'getParameter',{value:function(){let a=new Float32Array([1,8192]);switch(arguments[0]){case 3415:return 0;case 3414:return 24;case 35661:return config.random.items([128,192,256]);case 3386:return config.random.array([8192,16384,32768]);case 36349:case 36347:return config.random.item([4096,8192]);case 34047:case 34921:return config.random.items([2,4,8,16]);case 7937:case 33901:case 33902:return a;case 34930:case 36348:case 35660:return config.random.item([16,32,64]);case 34076:case 34024:case 3379:return config.random.item([16384,32768]);case 3413:case 3412:case 3411:case 3410:case 34852:return config.random.item([2,4,8,16]);default:return config.random.item([0,2,4,8,16,32,64,128,256,512,1024,2048,4096])}}})}}}};config.spoof.webgl.buffer(WebGLRenderingContext);config.spoof.webgl.buffer(WebGL2RenderingContext);config.spoof.webgl.parameter(WebGLRenderingContext);config.spoof.webgl.parameter(WebGL2RenderingContext);const rand={noise:()=>Math.floor(Math.random()+(Math.random()<Math.random()?-1:1)*Math.random()),sign:()=>[-1,-1,-1,-1,-1,-1,1,-1,-1,-1][Math.floor(10*Math.random())]};Object.defineProperty(HTMLElement.prototype,'offsetHeight',{get:function(){let e=Math.floor(this.getBoundingClientRect().height);return e&&1===rand.sign()?e+rand.noise():e}});Object.defineProperty(HTMLElement.prototype,'offsetWidth',{get:function(){let e=Math.floor(this.getBoundingClientRect().width);return e&&1===rand.sign()?e+rand.noise():e}});const ctx={BUFFER:null,getChannelData:e=>{let t=e.prototype.getChannelData;Object.defineProperty(e.prototype,'getChannelData',{value:function(){let d=t.apply(this,arguments);if(ctx.BUFFER!==d){ctx.BUFFER=d;for(let i=0;i<d.length;i+=100){d[Math.floor(Math.random()*i)]+=1e-7*Math.random()}}return d}})},createAnalyser:e=>{let t=e.prototype.__proto__.createAnalyser;Object.defineProperty(e.prototype.__proto__,'createAnalyser',{value:function(){let a=t.apply(this,arguments),r=a.__proto__.getFloatFrequencyData;Object.defineProperty(a.__proto__,'getFloatFrequencyData',{value:function(){let arr=r.apply(this,arguments);for(let i=0;i<arguments[0].length;i+=100){arguments[0][Math.floor(Math.random()*i)]+=.1*Math.random()}return arr}});return a}})} };ctx.getChannelData(AudioBuffer);ctx.createAnalyser(AudioContext);ctx.getChannelData(OfflineAudioContext);ctx.createAnalyser(OfflineAudioContext);window.webkitRTCPeerConnection=void 0;window.RTCPeerConnection=void 0;window.MediaStreamTrack=void 0; })();";
const CODECS_TEXT: &str = r#"(()=>{try{const a={"audio/ogg":"probably","audio/mp4":"probably","audio/webm":"probably","audio/wav":"probably"},v={"video/webm":"probably","video/mp4":"probably","video/ogg":"probably"};const c={...a,...v},f=s=>{const[t]=s.split(";");if(t==="video/mp4"&&s.includes("avc1.42E01E"))return{name:t,state:"probably"};const e=Object.entries(c).find(([k])=>k===t);return e?{name:e[0],state:e[1]}:undefined};const h=HTMLMediaElement.prototype,p=h.canPlayType;Object.defineProperty(h,"canPlayType",{value:function(t){if(!t)return p.apply(this,arguments);const r=f(t);return r?r.state:p.apply(this,arguments)},configurable:!0});}catch(e){console.warn(e);}})();"#;
const TOUCH_TEXT: &str = "(()=>{const one=()=>1;Object.defineProperty(one,'toString',{value:()=>`function get maxTouchPoints() { [native code] }`});Object.defineProperties(Navigator.prototype,{maxTouchPoints:{get:one,configurable:true},msMaxTouchPoints:{get:one,configurable:true}});try{window.TouchEvent=class TouchEvent extends UIEvent{};document.createEvent=(type)=>(type==='TouchEvent'?new TouchEvent('touchstart'):(Document.prototype.createEvent.call(document,type)));if(!('ontouchstart'in window)){Object.defineProperty(Window.prototype,'ontouchstart',{value:null,writable:true,enumerable:true,configurable:true})}}catch{}})();";
const NO_TOUCH_TEXT: &str = r#"(()=>{const zero=()=>0;Object.defineProperty(zero,'toString',{value:()=>`function get maxTouchPoints() { [native code] }`});Object.defineProperties(Navigator.prototype,{maxTouchPoints:{get:zero,configurable:true},msMaxTouchPoints:{get:zero,configurable:true}});try{delete window.TouchEvent;Object.defineProperty(window,'TouchEvent',{get:()=>{throw new ReferenceError("TouchEvent is not defined")},configurable:true});document.createEvent=(type)=>{if(type==='TouchEvent'){throw new Error('NotSupportedError')}return Document.prototype.createEvent.call(document,type)};if('ontouchstart'in window){delete window.ontouchstart}if('ontouchstart'in Window.prototype){delete Window.prototype.ontouchstart;Object.defineProperty(Window.prototype,'ontouchstart',{value:undefined,writable:false,enumerable:false,configurable:false})}}catch{}})();"#;
const LABELS_START: &str = r#"(()=>{try{if(typeof navigator==="undefined")return;const n=navigator,md=n.mediaDevices;if(!md)return;const o=md.enumerateDevices;if(typeof o!=="function")return;const e=o.bind(md);const nat=fn=>{try{Object.defineProperty(fn,"toString",{value:()=>`function get label() { [native code] }`,configurable:!0})}catch(_ ){}return fn};const wrap=function(){return e().then(d=>d.map(v=>{try{if(!v||typeof v!=="object")return v;let l=v.label;if(typeof l==="string"){if(l.startsWith("Fake "))l=l.replace(/^Fake\s+/i,"");if(v.kind==="videoinput"&&/^fake(_device)?/i.test(l))l=""#;
const LABELS_END: &str = r#"";const esc=(""+l).replace(/\\/g,"\\\\").replace(/"/g,"\\\"");const g=nat(new Function('return "'+esc+'"'));try{Object.defineProperty(v,"label",{get:g,configurable:!0})}catch(_ ){}}}catch(_ ){}return v}))};try{Object.defineProperty(md,"enumerateDevices",{value:wrap,writable:!0,configurable:!0})}catch(_ ){try{md.enumerateDevices=wrap}catch(_ ){}}}catch(_ ){}})();"#;
const HISTORY_START: &str = "(()=>{const h=new Function('return ";
const HISTORY_END: &str = "');Object.defineProperty(h,'toString',{value:()=>`function get length() { [native code] }`});Object.defineProperty(History.prototype,'length',{get:h,configurable:!0});})();";
const PROCESSORS_START: &str = "(()=>{const c=";
const PROCESSORS_END: &str = ";function hardwareConcurrency(){return c}hardwareConcurrency.toString=()=>'function get hardwareConcurrency() { [native code] }';const s=()=>{try{Object.defineProperty(Navigator.prototype,'hardwareConcurrency',{get:hardwareConcurrency,enumerable:!0,configurable:!0})}catch{}try{typeof WorkerNavigator !== 'undefined' && Object.defineProperty(WorkerNavigator.prototype,'hardwareConcurrency',{get:hardwareConcurrency,enumerable:!0,configurable:!0})}catch{}};s();})();";
const GRAPHICS_CARD_END: &str = ",f=p=>p===37445?v:p===37446?r:null;for(const k of['WebGLRenderingContext','WebGL2RenderingContext']){const o=self[k]&&self[k].prototype&&self[k].prototype.getParameter;if(o)Object.defineProperty(self[k].prototype,'getParameter',{value:function(p){const s=f(p);return s??o.call(this,p)},configurable:!0})}}catch(_){ }";
const WORKER_PROCESSORS_START: &str = "try{Object.defineProperty(navigator,'hardwareConcurrency',{get:()=>";
const WORKER_PROCESSORS_MIDDLE: &str = ",enumerable:!0,configurable:!0})}catch(e){try{navigator.hardwareConcurrency=";
const WORKER_PROCESSORS_END: &str = "}catch(_){}}";
const WORKER_END: &str = r#"";const mk=C=>function(u,...a){try{const o=a[0];if(o&&typeof o=="object"&&o.type=="module")return new C(u,...a)}catch(_){ }let U;try{U=new URL(u,location.href)}catch(_){return new C(u,...a)}if(U.protocol!=="http:"&&U.protocol!=="https:")return new C(u,...a);if(U.origin!==location.origin)return new C(u,...a);const abs=U.toString(),b="(()=>{"+P+";try{importScripts("+JSON.stringify(abs)+")}catch(_){}})();";return new C(URL.createObjectURL(new Blob([b],{type:"text/javascript"})),...a)};window.Worker&&(window.Worker=mk(window.Worker));window.SharedWorker&&(window.SharedWorker=mk(window.SharedWorker))}catch(_){}})();"#;
const MEMORY_START: &str = "(()=>{try{if(typeof navigator==='undefined')return;const m=";
const MEMORY_END: &str = ";const g=function(){return m};try{Object.defineProperty(g,'toString',{value:()=>`function get deviceMemory() { [native code] }`})}catch(_){}try{if('deviceMemory'in Navigator.prototype||!('deviceMemory'in navigator)){Object.defineProperty(Navigator.prototype,'deviceMemory',{get:g,enumerable:!0,configurable:!0})}}catch(_){}try{if(typeof WorkerNavigator!=='undefined'&&('deviceMemory'in WorkerNavigator.prototype||!('deviceMemory'in navigator))){Object.defineProperty(WorkerNavigator.prototype,'deviceMemory',{get:g,enumerable:!0,configurable:!0})}}catch(_){}}catch(_){}})();";
const CANVAS_FORMAT_START: &str = "(() =>{class WGSLanguageFeatures{constructor(){this.size=4}}class GPU{constructor(){this.wgslLanguageFeatures=new WGSLanguageFeatures()}requestAdapter(){return Promise.resolve({requestDevice:()=>Promise.resolve({})})}getPreferredCanvasFormat(){return'";
const CANVAS_FORMAT_END: &str = "'}}const _gpu=new GPU(),_g=()=>_gpu;Object.defineProperty(_g,'toString',{value:()=>`function get gpu() { [native code] }`,configurable:!0});Object.defineProperty(Navigator.prototype,'gpu',{get:_g,configurable:!0,enumerable:!1});if(typeof WorkerNavigator!=='undefined'){Object.defineProperty(WorkerNavigator.prototype,'gpu',{get:_g,configurable:!0,enumerable:!1})}})();";
const ADAPTER_START: &str = r#"(()=>{try{const g=navigator&&navigator.gpu;if(!g||typeof g.requestAdapter!=="function")return;const def=(o,m)=>Object.defineProperties(o,Object.fromEntries(Object.entries(m).map(([k,v])=>[k,{value:v,enumerable:!0,configurable:!0}]))),orig=g.requestAdapter.bind(g),I={"#;
const ADAPTER_MIDDLE: &str = "},M={";
const ADAPTER_END: &str = "};g.requestAdapter=async opts=>{const a=await orig(opts);if(!a||!a.limits)return a;const lim=a.limits;try{a.info&&def(a.info,I)}catch(_){}try{for(const k of Object.getOwnPropertyNames(lim))if(!(k in M))delete lim[k];def(lim,M)}catch(_){}return a}}catch(_){}})();";
const SCREEN_END: &str = "');[iw,ih,ow,oh,sw,sh,aw,ah,sx,sy,cd,pd,dpr].forEach((f,i)=>Object.defineProperty(f,'toString',{value:()=>`function get ${['innerWidth','innerHeight','outerWidth','outerHeight','width','height','availWidth','availHeight','screenX','screenY','colorDepth','pixelDepth','devicePixelRatio'][i]}() { [native code] }`}));Object.defineProperty(window,'innerWidth',{get:iw,configurable:!0});Object.defineProperty(window,'innerHeight',{get:ih,configurable:!0});Object.defineProperty(window,'outerWidth',{get:ow,configurable:!0});Object.defineProperty(window,'outerHeight',{get:oh,configurable:!0});Object.defineProperty(window,'screenX',{get:sx,configurable:!0});Object.defineProperty(window,'screenY',{get:sy,configurable:!0});Object.defineProperty(window,'devicePixelRatio',{get:dpr,configurable:!0});Object.defineProperty(Screen.prototype,'width',{get:sw,configurable:!0});Object.defineProperty(Screen.prototype,'height',{get:sh,configurable:!0});Object.defineProperty(Screen.prototype,'availWidth',{get:aw,configurable:!0});Object.defineProperty(Screen.prototype,'availHeight',{get:ah,configurable:!0});Object.defineProperty(Screen.prototype,'colorDepth',{get:cd,configurable:!0});Object.defineProperty(Screen.prototype,'pixelDepth',{get:pd,configurable:!0});})();";
const AGENT_DATA_START: &str = "(()=>{if(typeof NavigatorUAData==='undefined')window.NavigatorUAData=function NavigatorUAData(){};const p=NavigatorUAData.prototype,v=Object.create(p),d={architecture:'";
const AGENT_DATA_MIDDLE: &str = "'};Object.defineProperties(v,{brands:{value:d.brands,enumerable:true},mobile:{value:d.mobile,enumerable:true},platform:{value:d.platform,enumerable:true}});Object.defineProperties(p,{brands:{get:function brands(){return this.brands}},mobile:{get:function mobile(){return this.mobile}},platform:{get:function platform(){return this.platform}}});function getHighEntropyValues(keys){keys=Array.isArray(keys)?keys:[];var out={};for(var i=0;i<keys.length;i++){var k=keys[i];if(k==='architecture'||k==='bitness'||k==='model'||k==='platformVersion'||k==='uaFullVersion'||k==='fullVersionList'){out[k]=(k==='uaFullVersion'?'";
const AGENT_DATA_END: &str = "':d[k]);}}return Promise.resolve(Object.assign({brands:d.brands,mobile:d.mobile,platform:d.platform},out))};Object.defineProperty(p,'getHighEntropyValues',{value:getHighEntropyValues});function toJSON(){return{brands:this.brands,mobile:this.mobile,platform:this.platform}}Object.defineProperty(p,'toJSON',{value:toJSON});const f=()=>v;Object.defineProperty(f,'toString',{value:()=>`function get userAgentData() { [native code] }`});Object.defineProperty(Navigator.prototype,'userAgentData',{get:f,configurable:!0});})();";

const SYSTEMS: [StealthOs; 8] = [
    StealthOs::Linux,
    StealthOs::Mac,
    StealthOs::Windows,
    StealthOs::Android,
    StealthOs::IPhone,
    StealthOs::IPad,
    StealthOs::ChromeOS,
    StealthOs::Unknown,
];

fn profiles(os: StealthOs) -> &'static [GpuProfile] {
    match os {
        StealthOs::Mac => GPU_PROFILES_MAC,
        StealthOs::IPhone | StealthOs::IPad => GPU_PROFILES_IPHONE,
        StealthOs::Windows => GPU_PROFILES_WINDOWS,
        StealthOs::Android => GPU_PROFILES_ANDROID,
        _ => GPU_PROFILES_LINUX,
    }
}

#[test]
fn profiles_of_a_system_have_much_in_common() {
    for os in SYSTEMS {
        assert!(!profiles(os).is_empty());
        for p in profiles(os) {
            match os {
                StealthOs::Mac => {
                    assert!(p.webgl_vendor.starts_with("Google Inc. ("));
                    assert!(p.webgl_renderer.starts_with("ANGLE ("));
                    assert_eq!(p.canvas_format, "bgra8unorm");
                    assert!(4 <= p.hardware_concurrency && p.hardware_concurrency <= 32);
                }
                StealthOs::IPhone | StealthOs::IPad => {
                    assert_eq!(p.webgl_vendor, "Apple Inc.");
                    assert!(p.webgl_renderer.starts_with("Apple A1"));
                    assert_eq!(p.webgpu_vendor, "apple");
                    assert!(p.webgpu_architecture.starts_with("metal-"));
                    assert_eq!(p.canvas_format, "bgra8unorm");
                    assert_eq!(p.hardware_concurrency, 6);
                }
                StealthOs::Windows => {
                    assert!(p.webgl_vendor.starts_with("Google Inc. ("));
                    assert!(p.webgl_renderer.starts_with("ANGLE ("));
                    assert!(p.webgpu_architecture.starts_with("d3d1"));
                    assert_eq!(p.canvas_format, "rgba8unorm");
                    assert!(4 <= p.hardware_concurrency && p.hardware_concurrency <= 24);
                }
                StealthOs::Android => {
                    assert!(p.webgl_vendor == "ARM" || p.webgl_vendor == "Qualcomm");
                    assert_eq!(p.canvas_format, "rgba8unorm");
                    assert_eq!(p.hardware_concurrency, 8);
                }
                _ => {
                    assert_eq!(p.webgpu_architecture, "vulkan");
                    assert_eq!(p.canvas_format, "rgba8unorm");
                    assert!(4 <= p.hardware_concurrency && p.hardware_concurrency <= 32);
                }
            }
        }
    }
}

fn workers(p: &GpuProfile, processors: bool, graphics: bool) -> String {
    let card = format!(
        "try{{const v='{}',r='{}'{GRAPHICS_CARD_END}",
        p.webgl_vendor, p.webgl_renderer
    );
    let c = p.hardware_concurrency;
    let number =
        format!("{WORKER_PROCESSORS_START}{c}{WORKER_PROCESSORS_MIDDLE}{c}{WORKER_PROCESSORS_END}");
    let first = if !processors {
        card.clone()
    } else if graphics {
        format!("{number};{card}")
    } else {
        number
    };
    let page = if graphics { format!("{card};") } else { String::new() };
    format!("(()=>{{try{{{page}const P=\"{first}{WORKER_END}")
}

/// The script of a tier up to the limits of the adapter and behind them.
fn stealth_parts(
    tier: StealthTier,
    chrome: &str,
    processors: bool,
    p: &GpuProfile,
) -> (String, Option<String>) {
    let claims = !matches!(
        tier,
        StealthTier::BasicNoWebglWithGPU
            | StealthTier::BasicNoWebglWithGPUNoExtra
            | StealthTier::BasicNoWebglWithGPUcWithConsole
    );
    let worker = if tier == StealthTier::BasicNoWorker {
        String::new()
    } else {
        workers(p, processors, !processors || claims)
    };
    let number = if processors {
        format!("{PROCESSORS_START}{}{PROCESSORS_END}", p.hardware_concurrency)
    } else {
        String::new()
    };
    let adapter = format!(
        "{ADAPTER_START}vendor:'{}',architecture:'{}',device:'',description:''{ADAPTER_MIDDLE}",
        p.webgpu_vendor, p.webgpu_architecture
    );
    let quiet = format!("{chrome};{HIDE_CONSOLE_TEXT}");
    let nav = NAVIGATOR_TEXT;
    let driver = HIDE_WEBDRIVER_TEXT;
    let all = format!("{quiet};{worker};{number};{adapter}");
    match tier {
        StealthTier::Basic | StealthTier::BasicNoWorker | StealthTier::BasicNoExtra => {
            (format!("{quiet};{worker};{adapter}"), Some(format!("{ADAPTER_END};{nav}")))
        }
        StealthTier::BasicWithConsole => (
            format!("{chrome};{worker};{number};{adapter}"),
            Some(format!("{ADAPTER_END};{nav}")),
        ),
        StealthTier::BasicNoWebgl
        | StealthTier::BasicNoWebglWithGPU
        | StealthTier::BasicNoWebglWithGPUNoExtra => {
            (format!("{quiet};{worker};{number};{nav}"), None)
        }
        StealthTier::BasicNoWebglWithGPUcWithConsole => {
            (format!("{chrome};{worker};{number};{nav}"), None)
        }
        StealthTier::HideOnly => (format!("{quiet};{driver}"), None),
        StealthTier::HideOnlyWithConsole => (format!("{chrome};{driver}"), None),
        StealthTier::HideOnlyChrome => (chrome.to_string(), None),
        StealthTier::Low | StealthTier::LowWithPlugins => {
            (all, Some(format!("{ADAPTER_END};{driver}")))
        }
        StealthTier::LowWithNavigator => (all, Some(format!("{ADAPTER_END};{driver};{nav}"))),
        StealthTier::Mid => (all, Some(format!("{ADAPTER_END};{nav};{driver}"))),
        StealthTier::Full => (
            all,
            Some(format!(
                "{ADAPTER_END};{driver};{nav};{CANVAS_FORMAT_START}{}{CANVAS_FORMAT_END}",
                p.canvas_format
            )),
        ),
        StealthTier::Extra | StealthTier::Off => (String::new(), None),
    }
}

const LIMITS: [(&str, u64, u64, u64); 31] = [
    ("maxTextureDimension1D", 16384, 16384, 0),
    ("maxTextureDimension2D", 16384, 16384, 0),
    ("maxTextureDimension3D", 2048, 2048, 0),
    ("maxTextureArrayLayers", 2048, 2048, 0),
    ("maxBindGroups", 4, 4, 0),
    ("maxBindGroupsPlusVertexBuffers", 24, 32, 3),
    ("maxBindingsPerBindGroup", 1000, 1000, 30),
    ("maxDynamicUniformBuffersPerPipelineLayout", 10, 12, 3),
    ("maxDynamicStorageBuffersPerPipelineLayout", 8, 16, 3),
    ("maxSampledTexturesPerShaderStage", 16, 32, 6),
    ("maxSamplersPerShaderStage", 16, 32, 6),
    ("maxStorageBuffersPerShaderStage", 10, 12, 3),
    ("maxStorageTexturesPerShaderStage", 8, 12, 3),
    ("maxUniformBuffersPerShaderStage", 12, 16, 3),
    ("maxUniformBufferBindingSize", 65536, 131072, 6144),
    ("maxStorageBufferBindingSize", 4294967292, 1073741824, 98304),
    ("minUniformBufferOffsetAlignment", 256, 256, 0),
    ("minStorageBufferOffsetAlignment", 256, 256, 0),
    ("maxVertexBuffers", 8, 16, 0),
    ("maxBufferSize", 4294967296, 4294967296, 0),
    ("maxVertexAttributes", 30, 16, 6),
    ("maxVertexBufferArrayStride", 2048, 2048, 0),
    ("maxInterStageShaderVariables", 28, 32, 3),
    ("maxColorAttachments", 8, 8, 0),
    ("maxColorAttachmentBytesPerSample", 128, 256, 24),
    ("maxComputeWorkgroupStorageSize", 32768, 65536, 6144),
    ("maxComputeInvocationsPerWorkgroup", 1024, 2048, 192),
    ("maxComputeWorkgroupSizeX", 1024, 256, 48),
    ("maxComputeWorkgroupSizeY", 1024, 256, 48),
    ("maxComputeWorkgroupSizeZ", 64, 64, 12),
    ("maxComputeWorkgroupsPerDimension", 65535, 131072, 1536),
];

fn limits_fit(os: StealthOs, limits: &str) -> bool {
    let entries: Vec<&str> = limits.split(',').collect();
    entries.len() == LIMITS.len()
        && entries.iter().zip(LIMITS).all(|(entry, (name, mac, other, drawn))| {
            let least = if os == StealthOs::Mac { mac } else { other };
            let (named, number) = entry.split_once(':').unwrap_or_default();
            let value: u64 = number.parse().unwrap_or_default();
            named == name && least <= value && value <= least + drawn
        })
}

fn is_stealth(tier: StealthTier, os: StealthOs, chrome: &str, processors: bool, script: &str) -> bool {
    profiles(os).iter().any(|p| {
        let (start, end) = stealth_parts(tier, chrome, processors, p);
        match end {
            None => script == start,
            Some(end) => {
                script.len() > start.len() + end.len()
                    && script.starts_with(&start)
                    && script.ends_with(&end)
                    && limits_fit(os, &script[start.len()..script.len() - end.len()])
            }
        }
    })
}

const TIERS: [StealthTier; 18] = [
    StealthTier::Basic,
    StealthTier::BasicWithConsole,
    StealthTier::BasicNoWebgl,
    StealthTier::BasicNoWebglWithGPU,
    StealthTier::BasicNoWebglWithGPUcWithConsole,
    StealthTier::BasicNoWorker,
    StealthTier::BasicNoExtra,
    StealthTier::BasicNoWebglWithGPUNoExtra,
    StealthTier::HideOnly,
    StealthTier::HideOnlyWithConsole,
    StealthTier::HideOnlyChrome,
    StealthTier::Low,
    StealthTier::LowWithPlugins,
    StealthTier::LowWithNavigator,
    StealthTier::Mid,
    StealthTier::Full,
    StealthTier::Extra,
    StealthTier::Off,
];

#[test]
fn stealth_scripts_are_those_of_a_tier_and_a_system() {
    for tier in TIERS {
        for os in SYSTEMS {
            let script = stealth_script(tier, os);
            assert!(is_stealth(tier, os, REMOVE_CHROME_TEXT, true, &script), "{tier:?} {os:?}");
        }
    }
    // A phone has no card of a desktop computer.
    let script = stealth_script(StealthTier::Full, StealthOs::IPhone);
    for other in [StealthOs::Windows, StealthOs::Mac, StealthOs::Linux, StealthOs::Android] {
        assert!(!is_stealth(StealthTier::Full, other, REMOVE_CHROME_TEXT, true, &script));
    }
}

fn page() -> Page {
    Page {
        target_id: "target".to_string(),
        session_id: "session".to_string(),
        opener_id: None,
    }
}

fn source(steps: &[Step]) -> String {
    assert_eq!(steps.len(), 1);
    let call = match &steps[0] {
        Step::Send(call) => call,
        other => panic!("expected a command, got {other:?}"),
    };
    assert_eq!(call.method, "Page.addScriptToEvaluateOnNewDocument");
    for (name, value) in &call.params {
        if let (true, Param::Text(text)) = (name == "source", value) {
            return text.clone();
        }
    }
    panic!("no source");
}

#[test]
fn pages_are_disguised_as_the_system_that_is_asked_for() {
    let page = page();
    let tier = StealthTier::Mid;
    for os in SYSTEMS {
        let script = source(&page.enable_stealth_mode_os(Some(os), Some(tier)));
        assert!(is_stealth(tier, os, REMOVE_CHROME_TEXT, true, &script));
        let script = source(&page._enable_stealth_mode(Some("f()"), Some(os), Some(tier)));
        let generated = script.strip_suffix(";(()=>{f()})();;").expect("the script of the user");
        assert!(is_stealth(tier, os, REMOVE_CHROME_TEXT, true, generated));
    }
    let script = source(&page.enable_stealth_mode());
    assert!(is_stealth(StealthTier::Basic, StealthOs::Unknown, REMOVE_CHROME_TEXT, true, &script));
}

fn settings(tier: StealthTier, fingerprint: StealthFingerprint) -> EmulationSettings {
    EmulationSettings {
        tier,
        fingerprint,
        agent_os: StealthOs::Unknown,
        firefox_agent: false,
        user_agent_data: None,
        touch_screen: false,
        hardware_concurrency: false,
        dismiss_dialogs: false,
        disable_notifications: false,
        disable_permissions: false,
        disable_media_codecs: false,
        disable_speech_syntheses: false,
        disable_media_labels: false,
        disable_history_length: false,
        disable_user_agent_data: false,
        disable_screen: false,
        disable_touch_screen: false,
        disable_plugins: false,
        disable_stealth: false,
        enable_device_memory: false,
        enable_cdp_marker_cleanup: false,
        enable_selenium_marker_cleanup: false,
    }
}

fn viewport(width: u32, height: u32) -> EmulatedViewport {
    EmulatedViewport {
        width,
        height,
        device_scale_factor: Some(Value::from(2.5)),
        emulating_mobile: false,
        is_landscape: true,
        has_touch: false,
    }
}

/// What is left to read of a script.
struct Rest<'a>(&'a str);

impl<'a> Rest<'a> {
    fn eat(&mut self, text: &str) {
        let shown: String = self.0.chars().take(80).collect();
        assert!(self.0.starts_with(text), "expected {text:.80}, got {shown}");
        self.0 = &self.0[text.len()..];
    }

    fn until(&mut self, mark: &str) -> &'a str {
        let at = self.0.find(mark).expect(mark);
        let taken = &self.0[..at];
        self.0 = &self.0[at + mark.len()..];
        taken
    }

    fn number(&mut self, name: &str) -> u64 {
        self.eat(&format!("{name}=new Function('return "));
        self.until("'),").parse().expect("a number")
    }
}

/// The data that is made up for a user agent.
struct Data {
    architecture: &'static str,
    bitness: &'static str,
    model: &'static str,
    version: &'static str,
    platform: &'static str,
    first: &'static str,
    second: &'static str,
    third: &'static str,
}

/// What a user agent stands for.
struct Agent {
    text: &'static str,
    os: StealthOs,
    chrome: &'static str,
    plugins: &'static str,
    label: &'static str,
    data: Option<Data>,
}

fn agents() -> Vec<Agent> {
    vec![
        Agent {
            text: "Mozilla/5.0 (X11; Linux x86_64) AppleWebKit/537.36 (KHTML, like Gecko) Chrome/131.0.6778.85 Safari/537.36",
            os: StealthOs::Linux,
            chrome: HIDE_CHROME_TEXT,
            plugins: CHROME_PLUGINS_TEXT,
            label: "Integrated Camera",
            data: Some(Data {
                architecture: "x86",
                bitness: "64",
                model: "",
                version: "131.0.6778",
                platform: "Linux",
                first: "Chromium",
                second: "Google Chrome",
                third: "Not-A.Brand",
            }),
        },
        Agent {
            text: "Mozilla/5.0 (Windows NT 10.0; Win64; x64) AppleWebKit/537.36 (KHTML, like Gecko) Chrome/131.0.0.0 Safari/537.36 Edg/131.0.0.0",
            os: StealthOs::Windows,
            chrome: HIDE_CHROME_TEXT,
            plugins: PLUGINS_TEXT,
            label: "Integrated Webcam",
            data: Some(Data {
                architecture: "x86",
                bitness: "64",
                model: "",
                version: "10.0",
                platform: "Windows",
                first: "Chromium",
                second: "Google Chrome",
                third: "Not-A.Brand",
            }),
        },
        Agent {
            text: "Mozilla/5.0 (Macintosh; Intel Mac OS X 10_15_7) AppleWebKit/537.36 (KHTML, like Gecko) Chrome/143.0.0.0 Safari/537.36",
            os: StealthOs::Mac,
            chrome: HIDE_CHROME_TEXT,
            plugins: CHROME_PLUGINS_TEXT,
            label: "FaceTime HD Camera",
            data: Some(Data {
                architecture: "arm",
                bitness: "64",
                model: "",
                version: "15.5.0",
                platform: "macOS",
                first: "Google Chrome",
                second: "Chromium",
                third: "Not A(Brand",
            }),
        },
        Agent {
            text: "Mozilla/5.0 (Linux; Android 14; Pixel 8) AppleWebKit/537.36 (KHTML, like Gecko) Chrome/131.0.0.0 Mobile Safari/537.36",
            os: StealthOs::Android,
            chrome: HIDE_CHROME_TEXT,
            plugins: CHROME_PLUGINS_TEXT,
            label: "Front Camera",
            data: Some(Data {
                architecture: "arm",
                bitness: "32",
                model: "android",
                version: "14",
                platform: "Android",
                first: "Chromium",
                second: "Google Chrome",
                third: "Not-A.Brand",
            }),
        },
        Agent {
            text: "Mozilla/5.0 (Linux; Android 14) AppleWebKit/537.36 Chrome/131.0.0.0 Mobile Safari/537.36 EdgA/1 Edg/131.0",
            os: StealthOs::Android,
            chrome: HIDE_CHROME_TEXT,
            plugins: PLUGINS_TEXT,
            label: "Front Camera",
            data: None,
        },
        Agent {
            text: "Mozilla/5.0 (Macintosh; Intel Mac OS X 10.15; rv:133.0) Gecko/20100101 Firefox/133.0",
            os: StealthOs::Unknown,
            chrome: REMOVE_CHROME_TEXT,
            plugins: PLUGINS_TEXT,
            label: "Integrated Camera",
            data: None,
        },
        Agent {
            text: "Mozilla/5.0 (X11; CrOS x86_64 14541.0.0) AppleWebKit/537.36 Chrome/89.0.0.0 Safari/537.36",
            os: StealthOs::Linux,
            chrome: HIDE_CHROME_TEXT,
            plugins: CHROME_PLUGINS_TEXT,
            label: "Integrated Camera",
            data: None,
        },
        Agent {
            text: "Mozilla/5.0 (Windows NT 10.0) AppleWebKit/537.36 Chrome/80.0.0.0 Safari/537.36 OPR/75.0",
            os: StealthOs::Windows,
            chrome: HIDE_CHROME_TEXT,
            plugins: PLUGINS_TEXT,
            label: "Integrated Webcam",
            data: None,
        },
        Agent {
            text: "Mozilla/5.0 (iPhone; CPU iPhone OS 17_0 like Mac OS X) AppleWebKit/605.1.15 CriOS/120.0 Mobile Safari/604.1",
            os: StealthOs::IPhone,
            chrome: HIDE_CHROME_TEXT,
            plugins: CHROME_PLUGINS_TEXT,
            label: "Front Camera",
            data: None,
        },
        Agent {
            text: "Mozilla/5.0 (iPad; CPU OS 17_0 like Mac OS X) Version/17.0 Safari/604.1",
            os: StealthOs::Unknown,
            chrome: REMOVE_CHROME_TEXT,
            plugins: PLUGINS_TEXT,
            label: "Integrated Camera",
            data: None,
        },
    ]
}

fn canvas(os: StealthOs) -> &'static str {
    match os {
        StealthOs::Mac => MAC_CANVAS_TEXT,
        StealthOs::Windows => WINDOWS_CANVAS_TEXT,
        _ => LINUX_CANVAS_TEXT,
    }
}

fn eat_fingerprint(rest: &mut Rest, os: StealthOs, fingerprint: StealthFingerprint) {
    if fingerprint == StealthFingerprint::Off {
        return;
    }
    if matches!(os, StealthOs::Linux | StealthOs::Mac | StealthOs::Windows) {
        rest.eat(canvas(os));
        if fingerprint == StealthFingerprint::Basic {
            rest.eat(GRAPHICS_TEXT);
        }
        return;
    }
    let whole = [StealthOs::Linux, StealthOs::Mac, StealthOs::Windows]
        .map(|os| format!("{}{GRAPHICS_TEXT}", canvas(os)));
    let text = whole.iter().find(|text| rest.0.starts_with(text.as_str())).expect("one of them");
    rest.eat(text);
}

fn eat_agent_data(rest: &mut Rest, data: &Data) {
    rest.eat(AGENT_DATA_START);
    rest.eat(&format!(
        "{}',bitness:'{}',model:'{}',platformVersion:'{}',fullVersionList:[",
        data.architecture, data.bitness, data.model, data.version
    ));
    rest.eat(&format!("{{brand:'{}',version:'", data.first));
    let full = rest.until("'},");
    rest.eat(&format!("{{brand:'{}',version:'{full}'}},", data.second));
    rest.eat(&format!("{{brand:'{}',version:'", data.third));
    let none = rest.until("'}],brands:[");
    if data.third == "Not A(Brand" {
        assert_eq!(none, "24.0.0.0");
    }
    let major = |version: &str| version.split('.').next().unwrap_or_default().to_string();
    rest.eat(&format!(
        "{{brand:'{}',version:'{}'}},{{brand:'{}',version:'{}'}},{{brand:'{}',version:'{}'}}",
        data.first,
        major(full),
        data.second,
        major(full),
        data.third,
        major(none)
    ));
    rest.eat(&format!("],mobile:!1,platform:'{}", data.platform));
    rest.eat(&format!("{AGENT_DATA_MIDDLE}{full}{AGENT_DATA_END}"));
}

fn eat_screen(rest: &mut Rest, size: &EmulatedViewport, os: StealthOs) {
    let (width, height) = (size.width as u64, size.height as u64);
    rest.eat("(()=>{const ");
    let inner_width = rest.number("iw");
    let inner_height = rest.number("ih");
    assert!(inner_width <= width && inner_width <= 1920 && inner_height <= height);
    let border = rest.number("ow") - inner_width;
    let bars = rest.number("oh") - inner_height;
    assert!(border <= 20 && 70 <= bars && bars <= 90);
    assert_eq!([rest.number("sw"), rest.number("sh"), rest.number("aw")], [width, height, width]);
    let menu = height - rest.number("ah");
    assert!(30 <= menu && menu <= 60);
    rest.eat("sx=new Function('return ");
    let left = rest.until("'),sy=new Function('return ");
    let top = rest.until("'),");
    if size.emulating_mobile {
        assert_eq!([left, top], ["0", "0"]);
    }
    let depth = rest.number("cd");
    assert_eq!(depth, rest.number("pd"));
    let small = matches!(os, StealthOs::Android | StealthOs::IPhone | StealthOs::IPad);
    let scale = size.device_scale_factor.as_ref().and_then(Value::as_f64);
    let ratio = match (scale, os) {
        (Some(scale), _) => scale,
        (None, _) if size.emulating_mobile || small => 2.0,
        (None, StealthOs::ChromeOS) => 1.6,
        _ => 1.0,
    };
    assert_eq!(depth == 30, !small && width >= 2560 && ratio >= 2.0);
    assert!(depth == 24 || depth == 30);
    rest.eat(&format!("dpr=new Function('return {ratio}"));
    rest.eat(SCREEN_END);
}

fn check_emulation(
    agent: &Agent,
    config: &EmulationSettings,
    size: Option<&EmulatedViewport>,
    custom: Option<&str>,
) {
    assert!(emulation_possible(agent.text, config, size));
    let script = emulation_script(agent.text, config, size, custom).expect("a script");
    let os = if config.agent_os == StealthOs::Unknown { agent.os } else { config.agent_os };
    let extra = !matches!(
        config.tier,
        StealthTier::BasicNoExtra | StealthTier::BasicNoWebglWithGPUNoExtra
    );
    let mut rest = Rest(&script);
    eat_fingerprint(&mut rest, os, config.fingerprint);
    if let Some(custom) = custom {
        rest.0 = rest.0.strip_suffix(&format!("(()=>{{{custom}}})();")).expect("the user's script");
    }
    if config.tier == StealthTier::Off {
        assert_eq!(rest.0, "");
        return;
    }
    if extra && !config.disable_speech_syntheses && os != StealthOs::Unknown {
        rest.eat(SPEECH_TEXT);
    }
    if let (true, Some(data)) = (
        extra && !config.disable_user_agent_data && config.user_agent_data != Some(false),
        &agent.data,
    ) {
        eat_agent_data(&mut rest, data);
    }
    if !extra || config.dismiss_dialogs {
        rest.eat(DISABLE_DIALOGS_TEXT);
    }
    if let (true, Some(size)) = (extra && !config.disable_screen, size) {
        eat_screen(&mut rest, size, os);
    }
    if extra && !config.disable_notifications {
        rest.eat(NOTIFICATIONS_TEXT);
    }
    if extra && !config.disable_permissions {
        rest.eat(PERMISSIONS_QUERY_TEXT);
    }
    if extra && !config.disable_media_codecs {
        rest.eat(CODECS_TEXT);
    }
    if extra && !config.disable_touch_screen && config.touch_screen {
        let mobile = size.is_some_and(|size| size.emulating_mobile);
        rest.eat(if mobile { TOUCH_TEXT } else { NO_TOUCH_TEXT });
    }
    if extra && !config.disable_media_labels {
        let label = match config.agent_os {
            StealthOs::Unknown => agent.label,
            StealthOs::ChromeOS => "Integrated Camera",
            _ => "Front Camera",
        };
        rest.eat(&format!("{LABELS_START}{label}{LABELS_END}"));
    }
    if extra && !config.disable_history_length {
        rest.eat(HISTORY_START);
        let length: u64 = rest.until(HISTORY_END).parse().expect("a number");
        assert!(1 <= length && length <= 6);
    }
    if extra && (!config.disable_plugins || config.tier == StealthTier::LowWithPlugins) {
        rest.eat(agent.plugins);
    }
    if config.enable_device_memory {
        rest.eat(MEMORY_START);
        let size: u64 = rest.until(MEMORY_END).parse().expect("a number");
        if matches!(os, StealthOs::Android | StealthOs::IPhone | StealthOs::IPad) {
            assert!(2 <= size && size <= 4);
        } else {
            assert!(size == 4 || size == 8);
        }
    }
    if config.enable_cdp_marker_cleanup {
        rest.eat(CDP_MARKERS_TEXT);
    }
    if config.enable_selenium_marker_cleanup {
        rest.eat(SELENIUM_MARKERS_TEXT);
    }
    if config.disable_stealth {
        assert_eq!(rest.0, "");
    } else {
        let processors = config.hardware_concurrency;
        assert!(is_stealth(config.tier, os, agent.chrome, processors, rest.0), "{os:?}");
    }
}

#[test]
fn browsers_are_emulated_by_user_agent_and_tier() {
    for agent in agents() {
        for tier in TIERS {
            let mut config = settings(tier, StealthFingerprint::Basic);
            check_emulation(&agent, &config, Some(&viewport(1280, 720)), Some("mine()"));
            config.fingerprint = StealthFingerprint::NativeGPU;
            config.hardware_concurrency = true;
            config.touch_screen = true;
            let mut mobile = viewport(2744, 1400);
            mobile.emulating_mobile = true;
            check_emulation(&agent, &config, Some(&mobile), None);
            mobile.device_scale_factor = None;
            check_emulation(&agent, &config, Some(&mobile), None);
        }
    }
}

#[test]
fn each_switch_of_an_emulation_counts() {
    let all = settings(StealthTier::Mid, StealthFingerprint::Off);
    let mut configs = vec![all];
    for switch in 0..17 {
        let mut config = all;
        match switch {
            0 => config.user_agent_data = Some(false),
            1 => config.touch_screen = true,
            2 => config.hardware_concurrency = true,
            3 => config.dismiss_dialogs = true,
            4 => config.disable_notifications = true,
            5 => config.disable_permissions = true,
            6 => config.disable_media_codecs = true,
            7 => config.disable_speech_syntheses = true,
            8 => config.disable_media_labels = true,
            9 => config.disable_history_length = true,
            10 => config.disable_user_agent_data = true,
            11 => config.disable_screen = true,
            12 => config.disable_plugins = true,
            13 => config.disable_stealth = true,
            14 => config.enable_device_memory = true,
            15 => config.enable_cdp_marker_cleanup = true,
            _ => config.enable_selenium_marker_cleanup = true,
        }
        configs.push(config);
        let mut untouched = config;
        untouched.touch_screen = true;
        untouched.disable_touch_screen = true;
        configs.push(untouched);
        let mut low = config;
        low.tier = StealthTier::LowWithPlugins;
        configs.push(low);
        for os in [StealthOs::Android, StealthOs::IPad, StealthOs::ChromeOS] {
            let mut other = config;
            other.agent_os = os;
            configs.push(other);
        }
    }
    let mut size = viewport(2560, 600);
    size.device_scale_factor = None;
    for agent in agents() {
        for config in &configs {
            check_emulation(&agent, config, Some(&size), None);
            check_emulation(&agent, config, None, None);
        }
    }
}

#[test]
fn emulations_are_sent_to_the_page() {
    let agent = &agents()[5];
    let config = settings(StealthTier::HideOnlyChrome, StealthFingerprint::NativeGPU);
    let steps = page()._enable_real_emulation(agent.text, &config, None, Some("mine()"));
    let script = source(&steps);
    assert!(script.contains(GRAPHICS_TEXT));
    let end = format!("{PLUGINS_TEXT}{REMOVE_CHROME_TEXT}(()=>{{mine()}})();;(()=>{{mine()}})();;");
    assert!(script.ends_with(&end));
    let off = settings(StealthTier::Off, StealthFingerprint::Off);
    assert_eq!(emulation_script(agent.text, &off, None, None), None);
    assert!(page()._enable_real_emulation(agent.text, &off, None, None).is_empty());
    assert_eq!(
        emulation_script(agent.text, &off, None, Some("f()")).as_deref(),
        Some("(()=>{f()})();")
    );
}

#[test]
fn what_can_not_be_emulated_is_known_before() {
    let basic = settings(StealthTier::Basic, StealthFingerprint::Off);
    assert!(!emulation_possible("curl", &basic, Some(&viewport(3840, 2160))));
    assert!(!emulation_possible("curl", &basic, Some(&viewport(2745, 720))));
    assert!(!emulation_possible("curl", &basic, Some(&viewport(1280, 59))));
    assert!(!emulation_possible("curl", &basic, Some(&viewport(1280, i32::MAX as u32))));
    assert!(emulation_possible("curl", &basic, Some(&viewport(2744, 60))));
    let mut mobile = viewport(1280, i32::MAX as u32);
    mobile.emulating_mobile = true;
    assert!(emulation_possible("curl", &basic, Some(&mobile)));
    let agents = [
        ("x Chrome/123456789 y", true),
        ("x Chrome/1234567890", true),
        ("x Chrome/4294967295", true),
        ("x Chrome/4294967296", false),
        ("x Chrome/5000000000", true),
        ("x Chrome/5000000001", false),
        ("x Edg/131 CHROME/99999999999.0", true),
        ("x Edg/99999999999 Chrome/131", false),
        ("Android x Edg/99999999999 Chrome/131", true),
        ("OPR/99999999999.", false),
        ("Chrome/", true),
    ];
    for (agent, possible) in agents {
        assert_eq!(emulation_possible(agent, &basic, None), possible, "{agent}");
        if possible {
            assert!(emulation_script(agent, &basic, None, None).is_some());
        }
    }
    let mut plain = basic;
    plain.user_agent_data = Some(false);
    assert!(emulation_possible("x Chrome/99999999999", &plain, None));
}
